//! Asset records: kinds detected from file extensions, validated names,
//! normalized project-relative paths and the stable identifiers derived from
//! them.
use crate::diagnostic::Severity;
use crate::id::Id;
use crate::order::{char_codes, seq_compare, text_compare};
use crate::text::{
    all_whitespace, ascii_lower_seq, ascii_lowercase_str, concat2, is_blank, join_seq,
    join_strings, push_char, str_eq, trim, trim_str,
};
use vstd::prelude::*;

verus! {

#[derive(Debug, Clone, Copy, PartialEq, Eq, PartialOrd, Ord, Hash, Structural)]
pub enum AssetKind {
    Audio,
    Folder,
    Image,
    Material,
    Model,
    Scene,
    Script,
    Text,
    Unknown,
}

pub open spec fn asset_kind_label(k: AssetKind) -> Seq<char> {
    match k {
        AssetKind::Folder => "Folder"@,
        AssetKind::Scene => "Scene"@,
        AssetKind::Image => "Image"@,
        AssetKind::Audio => "Audio"@,
        AssetKind::Model => "Model"@,
        AssetKind::Script => "Script"@,
        AssetKind::Material => "Material"@,
        AssetKind::Text => "Text"@,
        AssetKind::Unknown => "Unknown"@,
    }
}

impl AssetKind {
    pub fn label(self) -> (r: &'static str)
        ensures
            r@ == asset_kind_label(self),
    {
        match self {
            AssetKind::Folder => "Folder",
            AssetKind::Scene => "Scene",
            AssetKind::Image => "Image",
            AssetKind::Audio => "Audio",
            AssetKind::Model => "Model",
            AssetKind::Script => "Script",
            AssetKind::Material => "Material",
            AssetKind::Text => "Text",
            AssetKind::Unknown => "Unknown",
        }
    }
}

/// The kind of asset a file with the given lower-case extension holds.
pub open spec fn kind_for_extension(e: Seq<char>) -> AssetKind {
    if e == "scene"@ {
        AssetKind::Scene
    } else if e == "png"@ || e == "jpg"@ || e == "jpeg"@ || e == "webp"@ || e == "bmp"@ || e
        == "gif"@ {
        AssetKind::Image
    } else if e == "wav"@ || e == "ogg"@ || e == "mp3"@ || e == "flac"@ {
        AssetKind::Audio
    } else if e == "glb"@ || e == "gltf"@ || e == "obj"@ || e == "fbx"@ {
        AssetKind::Model
    } else if e == "rs"@ || e == "lua"@ || e == "gd"@ || e == "js"@ || e == "ts"@ {
        AssetKind::Script
    } else if e == "material"@ || e == "mat"@ {
        AssetKind::Material
    } else if e == "md"@ || e == "txt"@ || e == "json"@ || e == "toml"@ || e == "yaml"@ || e
        == "yml"@ {
        AssetKind::Text
    } else {
        AssetKind::Unknown
    }
}

/// The kind for an optional extension, compared without regard to ASCII case.
pub open spec fn kind_for_optional_extension(extension: Option<Seq<char>>) -> AssetKind {
    match extension {
        Some(e) => kind_for_extension(ascii_lower_seq(e)),
        None => AssetKind::Unknown,
    }
}

/// The documented kinds: an extension, in any ASCII case, names the kind
/// of its table row. Images are png, jpg, jpeg, webp, bmp and gif; audio is
/// wav, ogg, mp3 and flac; models are glb, gltf, obj and fbx; scripts are rs,
/// lua, gd, js and ts; materials are material and mat; text is md, txt,
/// json, toml, yaml and yml; and scene files are scene. No extension names no
/// kind.
pub proof fn law_extension_kinds(e: Seq<char>)
    ensures
        ascii_lower_seq(e) == "scene"@ ==> kind_for_optional_extension(Some(e)) == AssetKind::Scene,
        ascii_lower_seq(e) == "png"@ || ascii_lower_seq(e) == "jpg"@ || ascii_lower_seq(e) == "jpeg"@
            || ascii_lower_seq(e) == "webp"@ || ascii_lower_seq(e) == "bmp"@ || ascii_lower_seq(e)
            == "gif"@ ==> kind_for_optional_extension(Some(e)) == AssetKind::Image,
        ascii_lower_seq(e) == "wav"@ || ascii_lower_seq(e) == "ogg"@ || ascii_lower_seq(e) == "mp3"@
            || ascii_lower_seq(e) == "flac"@ ==> kind_for_optional_extension(Some(e)) == AssetKind::Audio,
        ascii_lower_seq(e) == "glb"@ || ascii_lower_seq(e) == "gltf"@ || ascii_lower_seq(e) == "obj"@
            || ascii_lower_seq(e) == "fbx"@ ==> kind_for_optional_extension(Some(e)) == AssetKind::Model,
        ascii_lower_seq(e) == "rs"@ || ascii_lower_seq(e) == "lua"@ || ascii_lower_seq(e) == "gd"@
            || ascii_lower_seq(e) == "js"@ || ascii_lower_seq(e) == "ts"@ ==> kind_for_optional_extension(
            Some(e),
        ) == AssetKind::Script,
        ascii_lower_seq(e) == "material"@ || ascii_lower_seq(e) == "mat"@ ==> kind_for_optional_extension(
            Some(e),
        ) == AssetKind::Material,
        ascii_lower_seq(e) == "md"@ || ascii_lower_seq(e) == "txt"@ || ascii_lower_seq(e) == "json"@
            || ascii_lower_seq(e) == "toml"@ || ascii_lower_seq(e) == "yaml"@ || ascii_lower_seq(e)
            == "yml"@ ==> kind_for_optional_extension(Some(e)) == AssetKind::Text,
        kind_for_optional_extension(None) == AssetKind::Unknown,
{
    reveal_strlit("scene");
    assert("scene"@.len() == 5 && "scene"@[0] == 's' && "scene"@[1] == 'c' && "scene"@[2] == 'e' && "scene"@[3] == 'n' && "scene"@[4] == 'e');
    reveal_strlit("png");
    assert("png"@.len() == 3 && "png"@[0] == 'p' && "png"@[1] == 'n' && "png"@[2] == 'g');
    reveal_strlit("jpg");
    assert("jpg"@.len() == 3 && "jpg"@[0] == 'j' && "jpg"@[1] == 'p' && "jpg"@[2] == 'g');
    reveal_strlit("jpeg");
    assert("jpeg"@.len() == 4 && "jpeg"@[0] == 'j' && "jpeg"@[1] == 'p' && "jpeg"@[2] == 'e' && "jpeg"@[3] == 'g');
    reveal_strlit("webp");
    assert("webp"@.len() == 4 && "webp"@[0] == 'w' && "webp"@[1] == 'e' && "webp"@[2] == 'b' && "webp"@[3] == 'p');
    reveal_strlit("bmp");
    assert("bmp"@.len() == 3 && "bmp"@[0] == 'b' && "bmp"@[1] == 'm' && "bmp"@[2] == 'p');
    reveal_strlit("gif");
    assert("gif"@.len() == 3 && "gif"@[0] == 'g' && "gif"@[1] == 'i' && "gif"@[2] == 'f');
    reveal_strlit("wav");
    assert("wav"@.len() == 3 && "wav"@[0] == 'w' && "wav"@[1] == 'a' && "wav"@[2] == 'v');
    reveal_strlit("ogg");
    assert("ogg"@.len() == 3 && "ogg"@[0] == 'o' && "ogg"@[1] == 'g' && "ogg"@[2] == 'g');
    reveal_strlit("mp3");
    assert("mp3"@.len() == 3 && "mp3"@[0] == 'm' && "mp3"@[1] == 'p' && "mp3"@[2] == '3');
    reveal_strlit("flac");
    assert("flac"@.len() == 4 && "flac"@[0] == 'f' && "flac"@[1] == 'l' && "flac"@[2] == 'a' && "flac"@[3] == 'c');
    reveal_strlit("glb");
    assert("glb"@.len() == 3 && "glb"@[0] == 'g' && "glb"@[1] == 'l' && "glb"@[2] == 'b');
    reveal_strlit("gltf");
    assert("gltf"@.len() == 4 && "gltf"@[0] == 'g' && "gltf"@[1] == 'l' && "gltf"@[2] == 't' && "gltf"@[3] == 'f');
    reveal_strlit("obj");
    assert("obj"@.len() == 3 && "obj"@[0] == 'o' && "obj"@[1] == 'b' && "obj"@[2] == 'j');
    reveal_strlit("fbx");
    assert("fbx"@.len() == 3 && "fbx"@[0] == 'f' && "fbx"@[1] == 'b' && "fbx"@[2] == 'x');
    reveal_strlit("rs");
    assert("rs"@.len() == 2 && "rs"@[0] == 'r' && "rs"@[1] == 's');
    reveal_strlit("lua");
    assert("lua"@.len() == 3 && "lua"@[0] == 'l' && "lua"@[1] == 'u' && "lua"@[2] == 'a');
    reveal_strlit("gd");
    assert("gd"@.len() == 2 && "gd"@[0] == 'g' && "gd"@[1] == 'd');
    reveal_strlit("js");
    assert("js"@.len() == 2 && "js"@[0] == 'j' && "js"@[1] == 's');
    reveal_strlit("ts");
    assert("ts"@.len() == 2 && "ts"@[0] == 't' && "ts"@[1] == 's');
    reveal_strlit("material");
    assert("material"@.len() == 8 && "material"@[0] == 'm' && "material"@[1] == 'a' && "material"@[2] == 't' && "material"@[3] == 'e' && "material"@[4] == 'r' && "material"@[5] == 'i' && "material"@[6] == 'a' && "material"@[7] == 'l');
    reveal_strlit("mat");
    assert("mat"@.len() == 3 && "mat"@[0] == 'm' && "mat"@[1] == 'a' && "mat"@[2] == 't');
    reveal_strlit("md");
    assert("md"@.len() == 2 && "md"@[0] == 'm' && "md"@[1] == 'd');
    reveal_strlit("txt");
    assert("txt"@.len() == 3 && "txt"@[0] == 't' && "txt"@[1] == 'x' && "txt"@[2] == 't');
    reveal_strlit("json");
    assert("json"@.len() == 4 && "json"@[0] == 'j' && "json"@[1] == 's' && "json"@[2] == 'o' && "json"@[3] == 'n');
    reveal_strlit("toml");
    assert("toml"@.len() == 4 && "toml"@[0] == 't' && "toml"@[1] == 'o' && "toml"@[2] == 'm' && "toml"@[3] == 'l');
    reveal_strlit("yaml");
    assert("yaml"@.len() == 4 && "yaml"@[0] == 'y' && "yaml"@[1] == 'a' && "yaml"@[2] == 'm' && "yaml"@[3] == 'l');
    reveal_strlit("yml");
    assert("yml"@.len() == 3 && "yml"@[0] == 'y' && "yml"@[1] == 'm' && "yml"@[2] == 'l');
}

pub fn detect_kind_from_extension(extension: Option<&str>) -> (r: AssetKind)
    ensures
        r == kind_for_optional_extension(match extension {
            Some(e) => Some(e@),
            None => None,
        }),
{
    let e = match extension {
        Some(e) => e,
        None => {
            return AssetKind::Unknown;
        },
    };
    let lower = ascii_lowercase_str(e);
    let l = lower.as_str();
    if str_eq(l, "scene") {
        AssetKind::Scene
    } else if str_eq(l, "png") || str_eq(l, "jpg") || str_eq(l, "jpeg") || str_eq(l, "webp")
        || str_eq(l, "bmp") || str_eq(l, "gif") {
        AssetKind::Image
    } else if str_eq(l, "wav") || str_eq(l, "ogg") || str_eq(l, "mp3") || str_eq(l, "flac") {
        AssetKind::Audio
    } else if str_eq(l, "glb") || str_eq(l, "gltf") || str_eq(l, "obj") || str_eq(l, "fbx") {
        AssetKind::Model
    } else if str_eq(l, "rs") || str_eq(l, "lua") || str_eq(l, "gd") || str_eq(l, "js") || str_eq(
        l,
        "ts",
    ) {
        AssetKind::Script
    } else if str_eq(l, "material") || str_eq(l, "mat") {
        AssetKind::Material
    } else if str_eq(l, "md") || str_eq(l, "txt") || str_eq(l, "json") || str_eq(l, "toml")
        || str_eq(l, "yaml") || str_eq(l, "yml") {
        AssetKind::Text
    } else {
        AssetKind::Unknown
    }
}

/// A path separator: `/`, or `\` as Windows writes it.
pub open spec fn is_separator(c: char) -> bool {
    c == '/' || c == '\\'
}

/// The pieces of `s` between separators, empty pieces included.
pub open spec fn split_pieces(s: Seq<char>) -> Seq<Seq<char>>
    decreases s.len(),
{
    if s.len() == 0 {
        seq![Seq::empty()]
    } else {
        let init = split_pieces(s.drop_last());
        if is_separator(s.last()) {
            init.push(Seq::empty())
        } else {
            init.update(init.len() - 1, init.last().push(s.last()))
        }
    }
}

/// A piece that names a directory or file (not empty, not `.`).
pub open spec fn is_named_piece(p: Seq<char>) -> bool {
    p.len() > 0 && p != "."@
}

/// The components of a path as an asset path keeps them: the named pieces
/// between separators, with `.` and empty pieces (a root, repeated
/// separators) dropped and `..` kept.
pub open spec fn path_components(s: Seq<char>) -> Seq<Seq<char>> {
    split_pieces(s).filter(|p: Seq<char>| is_named_piece(p))
}

/// A path's text with `/` between its components.
pub open spec fn path_text(components: Seq<Seq<char>>) -> Seq<char> {
    join_seq(components, "/"@)
}

proof fn lemma_split_pieces_nonempty(s: Seq<char>)
    ensures
        split_pieces(s).len() > 0,
    decreases s.len(),
{
    if s.len() > 0 {
        lemma_split_pieces_nonempty(s.drop_last());
    }
}

/// The components of `path`.
pub fn path_components_of(path: &str) -> (r: Vec<String>)
    ensures
        r@.map_values(|c: String| c@) == path_components(path@),
{
    let ghost keep = |p: Seq<char>| is_named_piece(p);
    let n = path.unicode_len();
    let mut done: Vec<String> = Vec::new();
    let mut current = String::new();
    let mut i: usize = 0;
    proof {
        assert(path@.take(0) =~= Seq::<char>::empty());
        assert(split_pieces(path@.take(0)).drop_last() =~= Seq::<Seq<char>>::empty());
        reveal_with_fuel(Seq::filter, 1);
    }
    while i < n
        invariant
            n == path@.len(),
            i <= n,
            split_pieces(path@.take(i as int)).len() > 0,
            current@ == split_pieces(path@.take(i as int)).last(),
            done@.map_values(|c: String| c@) == split_pieces(path@.take(i as int)).drop_last().filter(
                keep,
            ),
            keep == (|p: Seq<char>| is_named_piece(p)),
        decreases n - i,
    {
        let c = path.get_char(i);
        let ghost prev = path@.take(i as int);
        let ghost next = path@.take(i + 1);
        proof {
            assert(next.drop_last() =~= prev);
            assert(next.last() == c);
            lemma_split_pieces_nonempty(next);
        }
        if c == '/' || c == '\\' {
            let ghost pieces = split_pieces(prev);
            let ghost before = done@;
            if current.as_str().unicode_len() > 0 && !str_eq(current.as_str(), ".") {
                done.push(current);
            }
            current = String::new();
            proof {
                reveal_with_fuel(Seq::filter, 1);
                assert(split_pieces(next) == pieces.push(Seq::empty()));
                assert(split_pieces(next).drop_last() =~= pieces);
                assert(pieces =~= pieces.drop_last().push(pieces.last()));
                if is_named_piece(pieces.last()) {
                    assert(done@.map_values(|c: String| c@) =~= before.map_values(
                        |c: String| c@,
                    ).push(pieces.last()));
                } else {
                    assert(done@.map_values(|c: String| c@) =~= before.map_values(
                        |c: String| c@,
                    ));
                }
                assert(current@ =~= Seq::<char>::empty());
            }
        } else {
            let ghost pieces = split_pieces(prev);
            push_char(&mut current, c);
            proof {
                assert(split_pieces(next) == pieces.update(
                    pieces.len() - 1,
                    pieces.last().push(c),
                ));
                assert(split_pieces(next).drop_last() =~= pieces.drop_last());
            }
        }
        i = i + 1;
    }
    let ghost pieces = split_pieces(path@.take(n as int));
    let ghost before = done@;
    if current.as_str().unicode_len() > 0 && !str_eq(current.as_str(), ".") {
        done.push(current);
    }
    proof {
        assert(path@.take(n as int) =~= path@);
        reveal_with_fuel(Seq::filter, 1);
        assert(pieces =~= pieces.drop_last().push(pieces.last()));
        if is_named_piece(pieces.last()) {
            assert(done@.map_values(|c: String| c@) =~= before.map_values(|c: String| c@).push(
                pieces.last(),
            ));
        } else {
            assert(done@.map_values(|c: String| c@) =~= before.map_values(|c: String| c@));
        }
    }
    done
}

/// The path's components joined with `/`: the form in which asset paths are
/// shown and from which their identifiers are derived.
pub fn normalized_asset_path_string(path: &str) -> (r: String)
    ensures
        r@ == path_text(path_components(path@)),
{
    let components = path_components_of(path);
    join_strings(&components, "/")
}

/// The FNV-1a offset basis and prime for 64-bit hashes.
pub open spec fn fnv_offset() -> u64 {
    0xcbf29ce484222325
}

pub open spec fn fnv_prime() -> u64 {
    0x100000001b3
}

/// The 64-bit FNV-1a hash state after `bytes`.
pub open spec fn fnv_state(bytes: Seq<u8>) -> u64
    decreases bytes.len(),
{
    if bytes.len() == 0 {
        fnv_offset()
    } else {
        (fnv_state(bytes.drop_last()) ^ (bytes.last() as u64)).wrapping_mul(fnv_prime())
    }
}

/// The FNV-1a hash of `bytes`, raised to 1 when it is 0.
pub open spec fn fnv1a64_spec(bytes: Seq<u8>) -> u64 {
    let h = fnv_state(bytes);
    if h < 1 {
        1
    } else {
        h
    }
}

/// Asset identifiers use the standard 64-bit FNV-1a hash: it starts from
/// the offset basis 0xcbf29ce484222325, and each byte is xored in and the
/// state multiplied, wrapping, by the prime 0x100000001b3; a hash of 0 is
/// raised to 1, so that an identifier is never 0.
pub proof fn law_fnv1a_standard(bytes: Seq<u8>, b: u8)
    ensures
        fnv_state(Seq::empty()) == 0xcbf29ce484222325u64,
        fnv_state(bytes.push(b)) == (fnv_state(bytes) ^ (b as u64)).wrapping_mul(0x100000001b3u64),
        fnv1a64_spec(bytes) == (if fnv_state(bytes) == 0 {
            1
        } else {
            fnv_state(bytes)
        }),
        fnv1a64_spec(bytes) != 0,
{
    assert(bytes.push(b).drop_last() =~= bytes);
}

pub fn fnv1a64(bytes: &[u8]) -> (r: u64)
    ensures
        r == fnv1a64_spec(bytes@),
{
    let mut hash: u64 = 0xcbf29ce484222325;
    let mut i: usize = 0;
    while i < bytes.len()
        invariant
            i <= bytes.len(),
            hash == fnv_state(bytes@.take(i as int)),
        decreases bytes.len() - i,
    {
        proof {
            assert(bytes@.take(i + 1).drop_last() =~= bytes@.take(i as int));
        }
        hash = hash ^ (bytes[i] as u64);
        hash = hash.wrapping_mul(0x100000001b3);
        i = i + 1;
    }
    assert(bytes@.take(bytes.len() as int) =~= bytes@);
    if hash < 1 {
        1
    } else {
        hash
    }
}

#[derive(Debug, Clone, Copy, PartialEq, Eq, PartialOrd, Ord, Hash)]
pub struct AssetMarker;

pub type AssetId = Id<AssetMarker>;

/// The identifier with the given value, or 1 for the value 0.
pub fn stable_asset_id(value: u64) -> (r: AssetId)
    ensures
        r@ == (if value == 0 {
            1
        } else {
            value
        }),
{
    match Id::new(value) {
        Some(id) => id,
        None => Id::min_id(),
    }
}

/// The identifier of an asset path: the FNV-1a hash of the UTF-8 bytes of
/// its normalized text, so the same path always gets the same identifier.
pub open spec fn path_asset_id(path: Seq<char>) -> u64 {
    fnv1a64_spec(vstd::utf8::encode_utf8(path_text(path_components(path))))
}

pub fn stable_asset_id_from_path(path: &str) -> (r: AssetId)
    ensures
        r@ == path_asset_id(path@),
{
    let normalized = normalized_asset_path_string(path);
    stable_asset_id(fnv1a64(normalized.as_str().as_bytes()))
}

#[derive(Debug, Clone, PartialEq, Eq)]
pub enum AssetError {
    EmptyAssetName,
    EmptyAssetPath,
    Io(String),
}

pub open spec fn asset_error_text(e: AssetError) -> Seq<char> {
    match e {
        AssetError::EmptyAssetName => "asset name cannot be empty"@,
        AssetError::EmptyAssetPath => "asset path cannot be empty"@,
        AssetError::Io(m) => "asset io error: "@ + m@,
    }
}

impl AssetError {
    pub fn message(&self) -> (r: String)
        ensures
            r@ == asset_error_text(*self),
    {
        match self {
            AssetError::EmptyAssetName => String::from_str("asset name cannot be empty"),
            AssetError::EmptyAssetPath => String::from_str("asset path cannot be empty"),
            AssetError::Io(m) => concat2("asset io error: ", m.as_str()),
        }
    }
}

/// A diagnostic about one field of an asset (its root, its metadata, ...).
#[derive(Debug, Clone, PartialEq, Eq)]
pub struct AssetDiagnostic {
    pub severity: Severity,
    pub field: String,
    pub message: String,
}

impl AssetDiagnostic {
    pub fn warning(field: &str, message: &str) -> (r: Self)
        ensures
            r.severity == Severity::Warning,
            r.field@ == field@,
            r.message@ == message@,
    {
        AssetDiagnostic { severity: Severity::Warning, field: field.to_owned(), message: message.to_owned() }
    }

    pub fn error(field: &str, message: &str) -> (r: Self)
        ensures
            r.severity == Severity::Error,
            r.field@ == field@,
            r.message@ == message@,
    {
        AssetDiagnostic { severity: Severity::Error, field: field.to_owned(), message: message.to_owned() }
    }

    pub fn field(&self) -> (r: &str)
        ensures
            r@ == self.field@,
    {
        self.field.as_str()
    }

    /// The diagnostic's field and message, as a status line shows them.
    pub fn summary(&self) -> (r: String)
        ensures
            r@ == self.field@ + ": "@ + self.message@,
    {
        crate::text::concat3(self.field.as_str(), ": ", self.message.as_str())
    }
}

/// An asset's name: trimmed and not empty, unless built unvalidated.
#[derive(Debug, PartialEq, Eq, PartialOrd, Ord)]
pub struct AssetName(String);

impl View for AssetName {
    type V = Seq<char>;

    closed spec fn view(&self) -> Seq<char> {
        self.0@
    }
}

impl Clone for AssetName {
    fn clone(&self) -> (r: Self)
        ensures
            r@ == self@,
    {
        AssetName(self.0.clone())
    }
}

/// The name of the last component of a path, as `Path::file_name` gives it:
/// none when there is no component or the last one is `..`.
pub open spec fn file_name(components: Seq<Seq<char>>) -> Option<Seq<char>> {
    if components.len() == 0 || components.last() == ".."@ {
        None
    } else {
        Some(components.last())
    }
}

impl AssetName {
    pub fn new(value: &str) -> (r: Result<Self, AssetError>)
        ensures
            all_whitespace(value@) ==> r == Err::<Self, AssetError>(AssetError::EmptyAssetName),
            !all_whitespace(value@) ==> (r matches Ok(n) && n@ == trim(value@)),
    {
        if is_blank(value) {
            return Err(AssetError::EmptyAssetName);
        }
        Ok(AssetName(trim_str(value)))
    }

    /// The name of the file a path names, or the whole path when it names
    /// none.
    pub fn from_path(path: &str) -> (r: Result<Self, AssetError>)
        ensures
            ({
                let name = match file_name(path_components(path@)) {
                    Some(n) => n,
                    None => path@,
                };
                &&& all_whitespace(name) ==> r == Err::<Self, AssetError>(AssetError::EmptyAssetName)
                &&& !all_whitespace(name) ==> (r matches Ok(n) && n@ == trim(name))
            }),
    {
        let components = path_components_of(path);
        let n = components.len();
        proof {
            assert(components@.map_values(|c: String| c@).len() == n);
        }
        if n > 0 {
            let last = &components[n - 1];
            assert(last@ == path_components(path@).last());
            if !str_eq(last.as_str(), "..") {
                return Self::new(last.as_str());
            }
        }
        Self::new(path)
    }

    pub fn from_unvalidated(value: &str) -> (r: Self)
        ensures
            r@ == value@,
    {
        AssetName(value.to_owned())
    }

    pub fn as_str(&self) -> (r: &str)
        ensures
            r@ == self@,
    {
        self.0.as_str()
    }
}

/// A project-relative asset path, kept as its normalized components.
#[derive(Debug, PartialEq, Eq, PartialOrd, Ord)]
pub struct AssetPath {
    components: Vec<String>,
}

impl View for AssetPath {
    type V = Seq<Seq<char>>;

    closed spec fn view(&self) -> Seq<Seq<char>> {
        self.components@.map_values(|c: String| c@)
    }
}

impl Clone for AssetPath {
    fn clone(&self) -> (r: Self)
        ensures
            r@ == self@,
    {
        let mut out: Vec<String> = Vec::new();
        let mut i: usize = 0;
        while i < self.components.len()
            invariant
                i <= self.components@.len(),
                out@.map_values(|c: String| c@) == self@.take(i as int),
            decreases self.components@.len() - i,
        {
            let ghost before = out@;
            let c = self.components[i].clone();
            out.push(c);
            assert(out@.map_values(|c: String| c@) =~= before.map_values(|c: String| c@).push(
                self@[i as int],
            ));
            assert(self@.take(i + 1) =~= self@.take(i as int).push(self@[i as int]));
            i = i + 1;
        }
        assert(self@.take(self@.len() as int) =~= self@);
        AssetPath { components: out }
    }
}

impl AssetPath {
    /// The normalized path; refused when the path is empty.
    pub fn new(path: &str) -> (r: Result<Self, AssetError>)
        ensures
            path@.len() == 0 ==> r == Err::<Self, AssetError>(AssetError::EmptyAssetPath),
            path@.len() != 0 ==> (r matches Ok(p) && p@ == path_components(path@)),
    {
        if path.unicode_len() == 0 {
            return Err(AssetError::EmptyAssetPath);
        }
        Ok(AssetPath { components: path_components_of(path) })
    }

    pub fn from_unvalidated(path: &str) -> (r: Self)
        ensures
            r@ == path_components(path@),
    {
        AssetPath { components: path_components_of(path) }
    }

    /// The path's text, with `/` between components.
    pub fn as_path(&self) -> (r: String)
        ensures
            r@ == path_text(self@),
    {
        self.display()
    }

    pub fn display(&self) -> (r: String)
        ensures
            r@ == path_text(self@),
    {
        join_strings(&self.components, "/")
    }

    /// The last component, unless there is none or it is `..`.
    pub fn file_name(&self) -> (r: Option<String>)
        ensures
            r matches Some(n) ==> file_name(self@) == Some(n@),
            r is None ==> file_name(self@) is None,
    {
        let n = self.components.len();
        if n == 0 {
            return None;
        }
        let last = &self.components[n - 1];
        assert(last@ == self@.last());
        if str_eq(last.as_str(), "..") {
            None
        } else {
            Some(last.clone())
        }
    }
}

/// How paths sort: component by component, `..` before any named
/// component, named components by their characters.
pub open spec fn component_compare(a: Seq<char>, b: Seq<char>) -> int {
    if a == ".."@ && b == ".."@ {
        0
    } else if a == ".."@ {
        -1
    } else if b == ".."@ {
        1
    } else {
        text_compare(a, b)
    }
}

pub open spec fn path_compare(a: Seq<Seq<char>>, b: Seq<Seq<char>>) -> int
    decreases a.len(),
{
    if a.len() == 0 && b.len() == 0 {
        0
    } else if a.len() == 0 {
        -1
    } else if b.len() == 0 {
        1
    } else if component_compare(a[0], b[0]) != 0 {
        component_compare(a[0], b[0])
    } else {
        path_compare(a.drop_first(), b.drop_first())
    }
}

fn compare_components(a: &str, b: &str) -> (r: i8)
    ensures
        r == component_compare(a@, b@),
{
    let pa = str_eq(a, "..");
    let pb = str_eq(b, "..");
    if pa && pb {
        0
    } else if pa {
        -1
    } else if pb {
        1
    } else {
        crate::order::compare_text(a, b)
    }
}

pub fn compare_paths(a: &AssetPath, b: &AssetPath) -> (r: i8)
    ensures
        r == path_compare(a@, b@),
{
    compare_component_lists(&a.components, &b.components)
}

/// Compares two lists of path components as paths.
pub fn compare_component_lists(a: &Vec<String>, b: &Vec<String>) -> (r: i8)
    ensures
        r == path_compare(a@.map_values(|c: String| c@), b@.map_values(|c: String| c@)),
{
    let ghost av = a@.map_values(|c: String| c@);
    let ghost bv = b@.map_values(|c: String| c@);
    let n = a.len();
    let m = b.len();
    let mut i: usize = 0;
    assert(av.skip(0) =~= av);
    assert(bv.skip(0) =~= bv);
    while i < n && i < m
        invariant
            av == a@.map_values(|c: String| c@),
            bv == b@.map_values(|c: String| c@),
            n == av.len(),
            m == bv.len(),
            i <= n,
            i <= m,
            path_compare(av, bv) == path_compare(av.skip(i as int), bv.skip(i as int)),
        decreases n - i,
    {
        let c = compare_components(a[i].as_str(), b[i].as_str());
        assert(av.skip(i as int)[0] == av[i as int]);
        assert(bv.skip(i as int)[0] == bv[i as int]);
        if c != 0 {
            return c;
        }
        assert(av.skip(i as int).drop_first() =~= av.skip(i + 1));
        assert(bv.skip(i as int).drop_first() =~= bv.skip(i + 1));
        i = i + 1;
    }
    if i == n && i == m {
        0
    } else if i == n {
        -1
    } else {
        1
    }
}

/// The extension of a file name, as `Path::extension` gives it: the text
/// after the last `.`, unless there is no `.` or the only one begins the
/// name.
pub open spec fn name_extension(name: Seq<char>) -> Option<Seq<char>> {
    if exists|k: int| 0 < k < name.len() && name[k] == '.' {
        let k = choose|k: int|
            0 < k < name.len() && name[k] == '.' && forall|j: int| k < j < name.len() ==> name[j] != '.';
        Some(name.subrange(k + 1, name.len() as int))
    } else {
        None
    }
}

/// The extension of the file a path names.
pub open spec fn path_extension(path: Seq<char>) -> Option<Seq<char>> {
    match file_name(path_components(path)) {
        Some(name) => name_extension(name),
        None => None,
    }
}

fn extension_of_name(name: &str) -> (r: Option<String>)
    ensures
        r matches Some(e) ==> name_extension(name@) == Some(e@),
        r is None ==> name_extension(name@) is None,
{
    let n = name.unicode_len();
    let mut k: usize = n;
    while k > 0
        invariant
            n == name@.len(),
            k <= n,
            forall|j: int| k <= j < n ==> name@[j] != '.',
        ensures
            k <= n,
            forall|j: int| k <= j < n ==> name@[j] != '.',
            k > 0 ==> name@[k - 1] == '.',
        decreases k,
    {
        if name.get_char(k - 1) == '.' {
            break;
        }
        k = k - 1;
    }
    if k <= 1 {
        proof {
            assert forall|j: int| 0 < j < n implies name@[j] != '.' by {
                if k == 1 && j == 0 {
                } else if k == 1 {
                    assert(j >= 1);
                }
            }
        }
        return None;
    }
    let dot = k - 1;
    proof {
        assert(name@[dot as int] == '.');
        assert forall|j: int| dot < j < n implies name@[j] != '.' by {}
        let c = choose|c: int|
            0 < c < name@.len() && name@[c] == '.' && forall|j: int| c < j < name@.len() ==> name@[j] != '.';
        if c < dot {
            assert(name@[dot as int] != '.');
        }
        if c > dot {
            assert(name@[c] != '.');
        }
    }
    let sub = name.substring_char(k, n);
    Some(sub.to_owned())
}

/// The extension of the file `path` names, if any.
pub fn extension_of(path: &str) -> (r: Option<String>)
    ensures
        r matches Some(e) ==> path_extension(path@) == Some(e@),
        r is None ==> path_extension(path@) is None,
{
    let components = path_components_of(path);
    let n = components.len();
    proof {
        assert(components@.map_values(|c: String| c@).len() == n);
    }
    if n == 0 {
        return None;
    }
    let last = &components[n - 1];
    assert(last@ == path_components(path@).last());
    if str_eq(last.as_str(), "..") {
        return None;
    }
    extension_of_name(last.as_str())
}

/// The kind of the asset at `path`: a folder for a directory, and otherwise
/// the kind its extension names.
pub fn detect_kind_from_path(path: &str, is_directory: bool) -> (r: AssetKind)
    ensures
        r == (if is_directory {
            AssetKind::Folder
        } else {
            kind_for_optional_extension(path_extension(path@))
        }),
{
    if is_directory {
        return AssetKind::Folder;
    }
    match extension_of(path) {
        Some(e) => detect_kind_from_extension(Some(e.as_str())),
        None => detect_kind_from_extension(None),
    }
}


proof fn lemma_text_compare_zero(a: Seq<char>, b: Seq<char>)
    ensures
        text_compare(a, b) == 0 <==> a == b,
{
    crate::order::lemma_seq_compare_zero(char_codes(a), char_codes(b));
    crate::order::lemma_char_codes_injective(a, b);
}

proof fn lemma_component_compare_facts(a: Seq<char>, b: Seq<char>)
    ensures
        -1 <= component_compare(a, b) <= 1,
        component_compare(a, b) == -component_compare(b, a),
        component_compare(a, b) == 0 <==> a == b,
{
    crate::order::lemma_seq_compare_range(char_codes(a), char_codes(b));
    crate::order::lemma_seq_compare_antisym(char_codes(a), char_codes(b));
    lemma_text_compare_zero(a, b);
}

proof fn lemma_component_compare_trans(a: Seq<char>, b: Seq<char>, c: Seq<char>)
    requires
        component_compare(a, b) < 0,
        component_compare(b, c) < 0,
    ensures
        component_compare(a, c) < 0,
{
    if a != ".."@ {
        crate::order::lemma_seq_compare_trans(char_codes(a), char_codes(b), char_codes(c));
    }
}

/// Paths compare as equal exactly when they have the same components.
pub proof fn lemma_path_compare_zero(a: Seq<Seq<char>>, b: Seq<Seq<char>>)
    ensures
        path_compare(a, b) == 0 <==> a == b,
    decreases a.len(),
{
    if a.len() == 0 && b.len() == 0 {
        assert(a =~= b);
    } else if a.len() > 0 && b.len() > 0 {
        lemma_component_compare_facts(a[0], b[0]);
        if a[0] == b[0] {
            lemma_path_compare_zero(a.drop_first(), b.drop_first());
            if a.drop_first() == b.drop_first() {
                assert(a =~= seq![a[0]] + a.drop_first());
                assert(b =~= seq![b[0]] + b.drop_first());
            }
            if a == b {
                assert(a.drop_first() =~= b.drop_first());
            }
        }
    }
}

/// Swapping the operands negates the comparison.
pub proof fn lemma_path_compare_antisym(a: Seq<Seq<char>>, b: Seq<Seq<char>>)
    ensures
        path_compare(a, b) == -path_compare(b, a),
        -1 <= path_compare(a, b) <= 1,
    decreases a.len(),
{
    if a.len() > 0 && b.len() > 0 {
        lemma_component_compare_facts(a[0], b[0]);
        lemma_path_compare_antisym(a.drop_first(), b.drop_first());
    }
}

proof fn lemma_path_compare_trans_strict(a: Seq<Seq<char>>, b: Seq<Seq<char>>, c: Seq<Seq<char>>)
    requires
        path_compare(a, b) < 0,
        path_compare(b, c) < 0,
    ensures
        path_compare(a, c) < 0,
    decreases a.len(),
{
    if a.len() > 0 && b.len() > 0 && c.len() > 0 {
        lemma_component_compare_facts(a[0], b[0]);
        lemma_component_compare_facts(b[0], c[0]);
        lemma_component_compare_facts(a[0], c[0]);
        if component_compare(a[0], b[0]) < 0 && component_compare(b[0], c[0]) < 0 {
            lemma_component_compare_trans(a[0], b[0], c[0]);
        } else if component_compare(a[0], b[0]) == 0 && component_compare(b[0], c[0]) == 0 {
            lemma_path_compare_trans_strict(a.drop_first(), b.drop_first(), c.drop_first());
        }
    }
}

/// A path below another is below everything that is not below the second.
pub proof fn lemma_path_compare_trans(a: Seq<Seq<char>>, b: Seq<Seq<char>>, c: Seq<Seq<char>>)
    ensures
        path_compare(a, b) < 0 && path_compare(b, c) <= 0 ==> path_compare(a, c) < 0,
        path_compare(a, b) <= 0 && path_compare(b, c) < 0 ==> path_compare(a, c) < 0,
        path_compare(a, b) <= 0 && path_compare(b, c) <= 0 ==> path_compare(a, c) <= 0,
{
    lemma_path_compare_zero(a, b);
    lemma_path_compare_zero(b, c);
    if path_compare(a, b) < 0 && path_compare(b, c) < 0 {
        lemma_path_compare_trans_strict(a, b, c);
    }
}


/// `\` written as `/`.
pub open spec fn with_forward_slashes(s: Seq<char>) -> Seq<char> {
    s.map_values(|c: char| if c == '\\' { '/' } else { c })
}

proof fn lemma_split_pieces_forward(s: Seq<char>)
    ensures
        split_pieces(with_forward_slashes(s)) == split_pieces(s),
    decreases s.len(),
{
    if s.len() > 0 {
        let t = with_forward_slashes(s);
        assert(t.drop_last() =~= with_forward_slashes(s.drop_last()));
        lemma_split_pieces_forward(s.drop_last());
        if is_separator(s.last()) {
            assert(is_separator(t.last()));
        } else {
            assert(t.last() == s.last());
        }
    }
}

/// A path names the same asset whichever separator it is written with: a
/// path with `\` has the components, the text and the identifier of the
/// same path written with `/`.
pub proof fn law_separators_are_interchangeable(s: Seq<char>)
    ensures
        path_components(with_forward_slashes(s)) == path_components(s),
        path_asset_id(with_forward_slashes(s)) == path_asset_id(s),
{
    lemma_split_pieces_forward(s);
}

/// The identifier of an asset depends on its path's components alone.
pub proof fn law_asset_id_follows_components(a: Seq<char>, b: Seq<char>)
    requires
        path_components(a) == path_components(b),
    ensures
        path_asset_id(a) == path_asset_id(b),
{
}

/// No separator occurs in `p`.
pub open spec fn no_separator(p: Seq<char>) -> bool {
    forall|i: int| 0 <= i < p.len() ==> !is_separator(#[trigger] p[i])
}

proof fn lemma_split_append_plain(x: Seq<char>, y: Seq<char>)
    requires
        no_separator(y),
    ensures
        split_pieces(x + y) == split_pieces(x).update(
            split_pieces(x).len() - 1,
            split_pieces(x).last() + y,
        ),
    decreases y.len(),
{
    lemma_split_pieces_nonempty(x);
    if y.len() == 0 {
        assert(x + y =~= x);
        assert(split_pieces(x).last() + y =~= split_pieces(x).last());
        assert(split_pieces(x).update(split_pieces(x).len() - 1, split_pieces(x).last())
            =~= split_pieces(x));
    } else {
        let y0 = y.drop_last();
        assert forall|i: int| 0 <= i < y0.len() implies !is_separator(#[trigger] y0[i]) by {
            assert(y0[i] == y[i]);
        }
        lemma_split_append_plain(x, y0);
        assert((x + y).drop_last() =~= x + y0);
        assert((x + y).last() == y.last());
        assert(!is_separator(y[y.len() - 1]));
        assert(split_pieces(x).last() + y0 + seq![y.last()] =~= split_pieces(x).last() + y);
        let a = split_pieces(x + y0);
        assert(a.last() == split_pieces(x).last() + y0);
        assert(a.last().push(y.last()) =~= split_pieces(x).last() + y);
        assert(a.update(a.len() - 1, a.last().push(y.last())) =~= split_pieces(x).update(
            split_pieces(x).len() - 1,
            split_pieces(x).last() + y,
        ));
    }
}

proof fn lemma_split_pieces_plain(s: Seq<char>)
    ensures
        forall|k: int| 0 <= k < split_pieces(s).len() ==> no_separator(#[trigger] split_pieces(s)[k]),
    decreases s.len(),
{
    lemma_split_pieces_nonempty(s);
    if s.len() > 0 {
        lemma_split_pieces_plain(s.drop_last());
        lemma_split_pieces_nonempty(s.drop_last());
        let init = split_pieces(s.drop_last());
        if !is_separator(s.last()) {
            let p = init.last().push(s.last());
            assert forall|i: int| 0 <= i < p.len() implies !is_separator(#[trigger] p[i]) by {
                if i < init.last().len() {
                    assert(no_separator(init[init.len() - 1]));
                }
            }
        }
    }
}

proof fn lemma_split_of_join(parts: Seq<Seq<char>>)
    requires
        parts.len() > 0,
        forall|k: int| 0 <= k < parts.len() ==> no_separator(#[trigger] parts[k]),
    ensures
        split_pieces(join_seq(parts, "/"@)) == parts,
    decreases parts.len(),
{
    if parts.len() == 1 {
        lemma_split_append_plain(Seq::empty(), parts[0]);
        assert(Seq::<char>::empty() + parts[0] =~= parts[0]);
        assert(split_pieces(Seq::<char>::empty()) == seq![Seq::<char>::empty()]);
        assert(Seq::<char>::empty() + parts[0] =~= parts[0]);
        assert(seq![Seq::<char>::empty()].update(0, Seq::<char>::empty() + parts[0]) =~= parts);
    } else {
        let init = parts.drop_last();
        assert forall|k: int| 0 <= k < init.len() implies no_separator(#[trigger] init[k]) by {
            assert(init[k] == parts[k]);
        }
        lemma_split_of_join(init);
        let j = join_seq(init, "/"@);
        reveal_strlit("/");
        assert(j + "/"@ == j.push('/'));
        assert((j + "/"@).drop_last() =~= j);
        assert(is_separator('/'));
        assert(split_pieces(j + "/"@) == init.push(Seq::<char>::empty()));
        assert(no_separator(parts.last()));
        lemma_split_append_plain(j + "/"@, parts.last());
        assert(Seq::<char>::empty() + parts.last() =~= parts.last());
        assert(init.push(Seq::<char>::empty()).update(init.len() as int, Seq::<char>::empty() + parts.last())
            =~= parts);
    }
}

proof fn lemma_filter_keeps_all(parts: Seq<Seq<char>>)
    requires
        forall|k: int| 0 <= k < parts.len() ==> is_named_piece(#[trigger] parts[k]),
    ensures
        parts.filter(|p: Seq<char>| is_named_piece(p)) == parts,
    decreases parts.len(),
{
    if parts.len() > 0 {
        let init = parts.drop_last();
        assert forall|k: int| 0 <= k < init.len() implies is_named_piece(#[trigger] init[k]) by {
            assert(init[k] == parts[k]);
        }
        lemma_filter_keeps_all(init);
        assert(parts =~= init.push(parts.last()));
        init.lemma_filter_push(parts.last(), |p: Seq<char>| is_named_piece(p));
    } else {
        assert(parts.filter(|p: Seq<char>| is_named_piece(p)) =~= parts) by {
            reveal(Seq::filter);
        }
    }
}

/// The components of a path are named pieces without a separator.
proof fn lemma_components_plain(s: Seq<char>)
    ensures
        forall|k: int|
            0 <= k < path_components(s).len() ==> is_named_piece(#[trigger] path_components(s)[k])
                && no_separator(path_components(s)[k]),
{
    let cs = path_components(s);
    let pred = |p: Seq<char>| is_named_piece(p);
    lemma_split_pieces_plain(s);
    assert forall|k: int| 0 <= k < cs.len() implies is_named_piece(#[trigger] cs[k]) && no_separator(
        cs[k],
    ) by {
        split_pieces(s).lemma_filter_pred(pred, k);
        assert(cs.contains(cs[k]));
        split_pieces(s).lemma_filter_contains_rev(pred, cs[k]);
        let j = choose|j: int| 0 <= j < split_pieces(s).len() && split_pieces(s)[j] == cs[k];
        assert(no_separator(split_pieces(s)[j]));
    }
}

/// Components that are named pieces without a separator are what their
/// text splits into again.
proof fn lemma_text_components(cs: Seq<Seq<char>>)
    requires
        forall|k: int| 0 <= k < cs.len() ==> is_named_piece(#[trigger] cs[k]) && no_separator(cs[k]),
    ensures
        path_components(path_text(cs)) == cs,
{
    let pred = |p: Seq<char>| is_named_piece(p);
    if cs.len() == 0 {
        assert(join_seq(cs, "/"@) =~= Seq::<char>::empty());
        assert(split_pieces(Seq::<char>::empty()) =~= seq![Seq::<char>::empty()]);
        assert(seq![Seq::<char>::empty()] =~= Seq::<Seq<char>>::empty().push(Seq::<char>::empty()));
        Seq::<Seq<char>>::empty().lemma_filter_push(Seq::<char>::empty(), pred);
        assert(Seq::<Seq<char>>::empty().filter(pred) =~= Seq::<Seq<char>>::empty()) by {
            reveal(Seq::filter);
        }
    } else {
        lemma_split_of_join(cs);
        lemma_filter_keeps_all(cs);
    }
}

/// The trailing components of a path, written out as text, split into
/// those same components.
pub proof fn lemma_components_of_suffix(s: Seq<char>, k: int)
    requires
        0 <= k <= path_components(s).len(),
    ensures
        path_components(path_text(path_components(s).skip(k))) == path_components(s).skip(k),
{
    let cs = path_components(s);
    lemma_components_plain(s);
    let t = cs.skip(k);
    assert forall|i: int| 0 <= i < t.len() implies is_named_piece(#[trigger] t[i]) && no_separator(
        t[i],
    ) by {
        assert(t[i] == cs[i + k]);
    }
    lemma_text_components(t);
}

/// The components of a path are the names between its separators: none
/// is empty or `.`, and none holds a `/` or a backslash, both of which separate
/// components.
pub proof fn law_components_are_plain_names(s: Seq<char>)
    ensures
        forall|k: int|
            #![trigger path_components(s)[k]]
            0 <= k < path_components(s).len() ==> path_components(s)[k].len() > 0
                && path_components(s)[k] != seq!['.'] && forall|i: int|
                0 <= i < path_components(s)[k].len() ==> path_components(s)[k][i] != '/'
                    && path_components(s)[k][i] != '\\',
{
    lemma_components_plain(s);
    reveal_strlit(".");
    assert("."@ =~= seq!['.']);
}

/// A name without separators, other than `.` and the empty name, is a path
/// of that one component.
pub proof fn law_plain_name_is_one_component(n: Seq<char>)
    requires
        n.len() > 0,
        n != seq!['.'],
        forall|i: int| 0 <= i < n.len() ==> n[i] != '/' && n[i] != '\\',
    ensures
        path_components(n) == seq![n],
{
    reveal_strlit(".");
    assert("."@ =~= seq!['.']);
    let cs = seq![n];
    assert(is_named_piece(cs[0]) && no_separator(cs[0]));
    lemma_text_components(cs);
    reveal_strlit("/");
    assert(path_text(cs) =~= n);
}

/// Normalizing a path twice gives what normalizing it once gives: the
/// normal form of a path's text has the same components, and the same text.
pub proof fn law_normalized_path_is_stable(s: Seq<char>)
    ensures
        path_components(path_text(path_components(s))) == path_components(s),
        path_text(path_components(path_text(path_components(s)))) == path_text(path_components(s)),
{
    lemma_components_plain(s);
    lemma_text_components(path_components(s));
}

} // verus!
