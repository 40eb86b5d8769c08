//! The asset description of the world scene: a table of named texts, read
//! into shader sources, vertex data, vertex components and texture files.
//!
//! The table comes as a [`Parameters`] mapping from names to texts; reading
//! the file it is stored in is the caller's part.

use vstd::prelude::*;
use vstd::string::*;
use crate::error::Error;
use crate::params::Parameters;
use crate::text::{
    chars_of, count_value, fields, fields_of, first_index_of, parse_count, string_of, texts_of,
};

verus! {

/// Path of the asset description, relative to the working directory.
pub const DESCRIPTION_PATH: &'static str = "data/shader.multitext";

/// Directory of the texture files, with its separator.
pub const TEXTURE_DIRECTORY: &'static str = "data/";

/// Name of the source of the vertex stage.
pub const VERTEX_SHADER: &'static str = "vertex shader";

/// Name of the source of the fragment stage.
pub const FRAGMENT_SHADER: &'static str = "fragment shader";

/// Name of the list of vertex floats.
pub const VERTICES: &'static str = "vertices";

/// Name of the list of component counts.
pub const VERTEX_COMPONENTS: &'static str = "vertex components";

/// Name of the list of texture files. The only text that may be missing.
pub const TEXTURES: &'static str = "textures";

/// Name of the uniform that receives the view-projection matrix.
pub const VIEW_PROJECTION_UNIFORM: &'static str = "mvp";

/// Name of the uniform that receives the elapsed time.
pub const TIME_UNIFORM: &'static str = "time";

/// The message for a text that the description lacks.
pub open spec fn not_found_text(name: Seq<char>) -> Seq<char> {
    name + " not found"@
}

/// The text called `name`, which the description must have.
pub fn required(table: &Parameters, name: &str) -> (text: Result<String, Error>)
    ensures
        text is Ok <==> table@.contains_key(name@),
        text matches Ok(t) ==> t@ == table@[name@],
        text matches Err(e) ==> e@ == not_found_text(name@),
{
    match table.get(name) {
        Some(text) => Ok(text),
        None => {
            let message = String::from_str(name).concat(" not found");
            Err(Error::new(message.as_str()))
        },
    }
}

/// Every field denotes a 32-bit number.
pub open spec fn all_counts(list: Seq<Seq<char>>) -> bool {
    forall|i: int| 0 <= i < list.len() ==> count_value(#[trigger] list[i]) is Some
}

/// The numbers that the fields denote.
pub open spec fn counts_of(list: Seq<Seq<char>>) -> Seq<i32> {
    Seq::new(list.len(), |i: int| count_value(list[i])->0)
}

/// The component counts that the list `text` holds.
///
/// Fails if a field of the list is no 32-bit number in decimal notation.
pub fn component_counts(text: &str) -> (counts: Result<Vec<i32>, Error>)
    ensures
        counts is Ok <==> all_counts(fields_of(text@)),
        counts matches Ok(list) ==> list@ == counts_of(fields_of(text@)),
        counts matches Err(e) ==> e@ == "vertex components are malformed"@,
{
    let list: Vec<String> = fields(text);
    let mut counts: Vec<i32> = Vec::new();
    let mut i: usize = 0;
    while i < list.len()
        invariant
            i <= list@.len(),
            texts_of(list@) == fields_of(text@),
            counts@.len() == i,
            forall|j: int|
                0 <= j < i ==> count_value(#[trigger] fields_of(text@)[j]) == Some(counts@[j]),
        decreases list@.len() - i,
    {
        assert(texts_of(list@)[i as int] == list@[i as int]@);
        match parse_count(list[i].as_str()) {
            Some(count) => {
                counts.push(count);
            },
            None => {
                return Err(Error::new("vertex components are malformed"));
            },
        }
        i = i + 1;
    }
    assert(counts@ =~= counts_of(fields_of(text@)));
    Ok(counts)
}

/// A texture of the scene.
#[derive(Debug, Clone, PartialEq, Eq)]
pub struct TextureFile {
    /// Path of the image file.
    pub path: String,
    /// Name of the sampler uniform that reads the texture.
    pub uniform: String,
}

/// Path of the texture file called `file`: it lies in the texture
/// directory.
pub open spec fn texture_path(file: Seq<char>) -> Seq<char> {
    TEXTURE_DIRECTORY@ + file
}

/// Name of the sampler uniform of the texture file called `file`: the
/// file name up to its first dot.
pub open spec fn texture_uniform(file: Seq<char>) -> Seq<char> {
    file.take(first_index_of(file, '.') as int)
}

/// `list` names the textures of the files `files`, in order.
pub open spec fn names_textures(list: Seq<TextureFile>, files: Seq<Seq<char>>) -> bool {
    &&& list.len() == files.len()
    &&& forall|i: int|
        0 <= i < files.len() ==> (#[trigger] list[i]).path@ == texture_path(files[i])
            && list[i].uniform@ == texture_uniform(files[i])
}

/// The texture of the file called `file`.
pub fn texture_file(file: &str) -> (texture: TextureFile)
    ensures
        texture.path@ == texture_path(file@),
        texture.uniform@ == texture_uniform(file@),
{
    let chars: Vec<char> = chars_of(file);
    let mut dot: usize = 0;
    while dot < chars.len() && chars[dot] != '.'
        invariant
            dot <= chars@.len(),
            forall|j: int| 0 <= j < dot ==> chars@[j] != '.',
        decreases chars@.len() - dot,
    {
        dot = dot + 1;
    }
    proof {
        crate::text::lemma_first_index(chars@, '.', dot as int);
    }
    TextureFile {
        path: String::from_str(TEXTURE_DIRECTORY).concat(file),
        uniform: string_of(&chars, 0, dot),
    }
}

/// The textures that the list `text` names, in order. The position of a
/// texture in the list is the number of its texture unit.
pub fn texture_files(text: &str) -> (textures: Vec<TextureFile>)
    ensures
        names_textures(textures@, fields_of(text@)),
{
    let list: Vec<String> = fields(text);
    let mut textures: Vec<TextureFile> = Vec::new();
    let mut i: usize = 0;
    while i < list.len()
        invariant
            i <= list@.len(),
            texts_of(list@) == fields_of(text@),
            names_textures(textures@, fields_of(text@).take(i as int)),
        decreases list@.len() - i,
    {
        assert(texts_of(list@)[i as int] == list@[i as int]@);
        let texture: TextureFile = texture_file(list[i].as_str());
        textures.push(texture);
        i = i + 1;
    }
    assert(fields_of(text@).take(i as int) =~= fields_of(text@));
    textures
}

/// The world scene as the asset description gives it.
#[derive(Debug, Clone, PartialEq, Eq)]
pub struct Scene {
    /// Source of the vertex stage.
    pub vertex_shader: String,
    /// Source of the fragment stage.
    pub fragment_shader: String,
    /// The vertex floats, each as it is written.
    pub vertices: Vec<String>,
    /// Number of floats of each vertex attribute.
    pub components: Vec<i32>,
    /// The textures, in the order of their texture units.
    pub textures: Vec<TextureFile>,
}

/// The text called `name`, or the empty text if the table has none.
pub open spec fn text_or_empty(table: Map<Seq<char>, Seq<char>>, name: Seq<char>) -> Seq<char> {
    if table.contains_key(name) {
        table[name]
    } else {
        Seq::empty()
    }
}

/// The description has every text that a scene needs, and its component
/// counts are numbers.
pub open spec fn describes_scene(table: Map<Seq<char>, Seq<char>>) -> bool {
    &&& table.contains_key(VERTEX_SHADER@)
    &&& table.contains_key(FRAGMENT_SHADER@)
    &&& table.contains_key(VERTICES@)
    &&& table.contains_key(VERTEX_COMPONENTS@)
    &&& all_counts(fields_of(table[VERTEX_COMPONENTS@]))
}

/// The message with which a description is refused: the first text that is
/// missing, in the order in which a scene is set up, or else the malformed
/// component counts.
pub open spec fn refusal_text(table: Map<Seq<char>, Seq<char>>) -> Seq<char> {
    if !table.contains_key(VERTEX_SHADER@) {
        not_found_text(VERTEX_SHADER@)
    } else if !table.contains_key(FRAGMENT_SHADER@) {
        not_found_text(FRAGMENT_SHADER@)
    } else if !table.contains_key(VERTICES@) {
        not_found_text(VERTICES@)
    } else if !table.contains_key(VERTEX_COMPONENTS@) {
        not_found_text(VERTEX_COMPONENTS@)
    } else {
        "vertex components are malformed"@
    }
}

/// Reads the scene from the asset description.
///
/// The two shader sources, the vertices and the vertex components must be
/// there; the list of textures may be missing, which stands for none.
pub fn scene(table: &Parameters) -> (read: Result<Scene, Error>)
    ensures
        read is Ok <==> describes_scene(table@),
        read matches Ok(s) ==> {
            &&& s.vertex_shader@ == table@[VERTEX_SHADER@]
            &&& s.fragment_shader@ == table@[FRAGMENT_SHADER@]
            &&& texts_of(s.vertices@) == fields_of(table@[VERTICES@])
            &&& s.components@ == counts_of(fields_of(table@[VERTEX_COMPONENTS@]))
            &&& names_textures(s.textures@, fields_of(text_or_empty(table@, TEXTURES@)))
        },
        read matches Err(e) ==> e@ == refusal_text(table@),
{
    let vertex_shader: String = match required(table, VERTEX_SHADER) {
        Ok(text) => text,
        Err(e) => {
            return Err(e);
        },
    };
    let fragment_shader: String = match required(table, FRAGMENT_SHADER) {
        Ok(text) => text,
        Err(e) => {
            return Err(e);
        },
    };
    let vertices: Vec<String> = match required(table, VERTICES) {
        Ok(text) => fields(text.as_str()),
        Err(e) => {
            return Err(e);
        },
    };
    let components: Vec<i32> = match required(table, VERTEX_COMPONENTS) {
        Ok(text) => match component_counts(text.as_str()) {
            Ok(counts) => counts,
            Err(e) => {
                return Err(e);
            },
        },
        Err(e) => {
            return Err(e);
        },
    };
    let textures: Vec<TextureFile> = match table.get(TEXTURES) {
        Some(text) => texture_files(text.as_str()),
        None => texture_files(""),
    };
    proof {
        reveal_strlit("");
        assert(""@ =~= Seq::<char>::empty());
    }
    Ok(Scene { vertex_shader, fragment_shader, vertices, components, textures })
}

} // verus!
