use vstd::prelude::*;
use vstd::string::StrSliceExecFns;
use vstd::string::StringExecFns;

use crate::path_guard::{char_vec, starts_with};

verus! {

/// Largest custom model accepted, in bytes (25 MiB).
pub const MAX_MODEL_BYTES: usize = 26214400;

/// A JSON document as far as the model check reads it: numbers are kept
/// without their value, object members in the order the parser yields them.
#[derive(Debug)]
pub enum Json {
    Null,
    Bool(bool),
    Number,
    Str(String),
    Array(Vec<Json>),
    Object(Vec<(String, Json)>),
}

#[verifier::external_type_specification]
#[verifier::external_body]
pub struct ExJsonValue(serde_json::Value);

/// What `serde_json::from_slice::<serde_json::Value>` makes of the bytes,
/// carried over into [`Json`]: `None` where it reports an error.
pub uninterp spec fn json_parse(bytes: Seq<u8>) -> Option<Json>;

/// Turns a parsed `serde_json::Value` into a [`Json`], variant for variant.
#[verifier::external_body]
fn json_tree(v: serde_json::Value) -> Json {
    match v {
        serde_json::Value::Null => Json::Null,
        serde_json::Value::Bool(b) => Json::Bool(b),
        serde_json::Value::Number(_) => Json::Number,
        serde_json::Value::String(s) => Json::Str(s),
        serde_json::Value::Array(items) => Json::Array(items.into_iter().map(json_tree).collect()),
        serde_json::Value::Object(members) => Json::Object(members.into_iter().map(|(k, x)| (k, json_tree(x))).collect()),
    }
}

/// Calls `serde_json::from_slice::<serde_json::Value>`; the result (the
/// document, or `None` on any parse error) is named, not spelled out.
#[verifier::external_body]
fn parse_json(bytes: &[u8]) -> (r: Option<Json>)
    ensures
        r == json_parse(bytes@),
{
    serde_json::from_slice::<serde_json::Value>(bytes).ok().map(json_tree)
}

/// The Base64 text (standard alphabet, with padding) of the bytes, as
/// `base64::engine::general_purpose::STANDARD.encode` produces it.
pub uninterp spec fn base64_standard(bytes: Seq<u8>) -> Seq<char>;

/// Calls `Engine::encode` on `base64::engine::general_purpose::STANDARD`.
/// The text is named; its length is four characters per started group of
/// three bytes (padding included), as `encoded_len` in the crate computes it.
/// The call panics when that length overflows `usize`, hence the bound.
#[verifier::external_body]
fn encode_base64(bytes: &[u8]) -> (s: String)
    requires
        bytes@.len() / 3 * 4 + 4 <= usize::MAX,
    ensures
        s@ == base64_standard(bytes@),
        s@.len() == 4 * ((bytes@.len() + 2) / 3),
{
    base64::Engine::encode(&base64::engine::general_purpose::STANDARD, bytes)
}

/// Why a custom model was refused.
#[derive(Clone, Copy, Debug, PartialEq, Eq, Structural)]
pub enum GlbError {
    /// The chosen file does not have the `.glb` extension.
    WrongExtension,
    /// More bytes were read than a model may have.
    TooLarge,
    /// No custom model has been chosen.
    NoModelChosen,
    /// The file is shorter than a GLB header or longer than allowed.
    SizeOutOfRange,
    /// The file is not a glTF 2.0 binary.
    NotGltf2,
    /// The length in the header is not the file's length.
    LengthMismatch,
    /// The first chunk is not a JSON chunk that fits in the file.
    MissingJsonChunk,
    /// The JSON chunk does not parse.
    InvalidJson,
    /// A buffer or image refers to data outside the file.
    ExternalResource,
}

impl GlbError {
    pub open spec fn text(self) -> Seq<char> {
        match self {
            GlbError::WrongExtension => "请选择 .glb 模型文件"@,
            GlbError::TooLarge => "GLB 模型不能超过 25 MB"@,
            GlbError::NoModelChosen => "尚未选择自定义模型"@,
            GlbError::SizeOutOfRange => "GLB 模型大小需在 20 字节至 25 MB 之间"@,
            GlbError::NotGltf2 => "请选择 glTF 2.0 格式的 .glb 文件"@,
            GlbError::LengthMismatch => "GLB 文件长度不正确"@,
            GlbError::MissingJsonChunk => "GLB 缺少有效的 JSON 数据块"@,
            GlbError::InvalidJson => "GLB 模型数据无效"@,
            GlbError::ExternalResource => "请使用已打包纹理和数据的独立 GLB 文件"@,
        }
    }

    /// The text shown to the user.
    pub fn message(&self) -> (m: String)
        ensures
            m@ == self.text(),
    {
        match self {
            GlbError::WrongExtension => String::from_str("请选择 .glb 模型文件"),
            GlbError::TooLarge => String::from_str("GLB 模型不能超过 25 MB"),
            GlbError::NoModelChosen => String::from_str("尚未选择自定义模型"),
            GlbError::SizeOutOfRange => String::from_str("GLB 模型大小需在 20 字节至 25 MB 之间"),
            GlbError::NotGltf2 => String::from_str("请选择 glTF 2.0 格式的 .glb 文件"),
            GlbError::LengthMismatch => String::from_str("GLB 文件长度不正确"),
            GlbError::MissingJsonChunk => String::from_str("GLB 缺少有效的 JSON 数据块"),
            GlbError::InvalidJson => String::from_str("GLB 模型数据无效"),
            GlbError::ExternalResource => String::from_str("请使用已打包纹理和数据的独立 GLB 文件"),
        }
    }
}

/// The member `key` of an object's members (the first one of that name).
pub open spec fn member(members: Seq<(String, Json)>, key: Seq<char>) -> Option<Json>
    decreases members.len(),
{
    if members.len() == 0 {
        None
    } else if members[0].0@ == key {
        Some(members[0].1)
    } else {
        member(members.drop_first(), key)
    }
}

/// `value[key]` as `serde_json::Value::get` reads it: only objects have members.
pub open spec fn json_get(value: Json, key: Seq<char>) -> Option<Json> {
    match value {
        Json::Object(members) => member(members@, key),
        _ => None,
    }
}

/// The little-endian 32-bit number stored at `at`.
pub open spec fn le_u32(b: Seq<u8>, at: int) -> int {
    b[at] + b[at + 1] * 256 + b[at + 2] * 65536 + b[at + 3] * 16777216
}

/// The magic number that opens every binary glTF file.
pub open spec fn glb_magic() -> Seq<u8> {
    seq![0x67u8, 0x6cu8, 0x54u8, 0x46u8]
}

/// The chunk type of a JSON chunk.
pub open spec fn json_chunk_type() -> Seq<u8> {
    seq![0x4au8, 0x53u8, 0x4fu8, 0x4eu8]
}

/// The URI prefix of data embedded in the file itself.
pub open spec fn data_scheme() -> Seq<char> {
    seq!['d', 'a', 't', 'a', ':']
}

/// An item of `buffers` or `images` whose `uri` is a string that does not
/// embed its data.
pub open spec fn refers_outside(item: Json) -> bool {
    match json_get(item, "uri"@) {
        Some(Json::Str(uri)) => !starts_with(uri@, data_scheme()),
        _ => false,
    }
}

/// Some item of the list refers outside the file.
pub open spec fn any_refers_outside(items: Seq<Json>) -> bool {
    exists|i: int| 0 <= i < items.len() && #[trigger] refers_outside(items[i])
}

/// The list `field` of the document holds an item that refers outside the file.
pub open spec fn field_refers_outside(doc: Json, field: Seq<char>) -> bool {
    match json_get(doc, field) {
        Some(Json::Array(items)) => any_refers_outside(items@),
        _ => false,
    }
}

/// The document needs data outside the GLB file.
pub open spec fn needs_outside_data(doc: Json) -> bool {
    field_refers_outside(doc, "buffers"@) || field_refers_outside(doc, "images"@)
}

/// The verdict on a file's bytes as a self-contained glTF 2.0 binary model.
pub open spec fn spec_validate_glb(b: Seq<u8>) -> Result<(), GlbError> {
    if b.len() < 20 || b.len() > MAX_MODEL_BYTES {
        Err(GlbError::SizeOutOfRange)
    } else if b.subrange(0, 4) != glb_magic() || le_u32(b, 4) != 2 {
        Err(GlbError::NotGltf2)
    } else if le_u32(b, 8) != b.len() {
        Err(GlbError::LengthMismatch)
    } else if b.subrange(16, 20) != json_chunk_type() || le_u32(b, 12) > b.len() - 20 {
        Err(GlbError::MissingJsonChunk)
    } else {
        match json_parse(b.subrange(20, 20 + le_u32(b, 12))) {
            None => Err(GlbError::InvalidJson),
            Some(doc) => if needs_outside_data(doc) {
                Err(GlbError::ExternalResource)
            } else {
                Ok(())
            },
        }
    }
}

/// The little-endian 32-bit number stored at `at`.
fn read_u32_le(b: &[u8], at: usize) -> (v: u32)
    requires
        at + 4 <= b@.len(),
    ensures
        v == le_u32(b@, at as int),
{
    (b[at] as u32) + (b[at + 1] as u32) * 256 + (b[at + 2] as u32) * 65536 + (b[at + 3] as u32) * 16777216
}

/// Whether the two texts are equal.
pub fn same_text(a: &str, b: &str) -> (same: bool)
    ensures
        same == (a@ == b@),
{
    let x = String::from_str(a);
    let y = String::from_str(b);
    x == y
}

/// The member `key` of `value`, if `value` is an object that has one.
fn get<'a>(value: &'a Json, key: &str) -> (r: Option<&'a Json>)
    ensures
        match r {
            Some(x) => json_get(*value, key@) == Some(*x),
            None => json_get(*value, key@) is None,
        },
{
    match value {
        Json::Object(members) => {
            let mut k: usize = 0;
            assert(members@.skip(0) =~= members@);
            assert(json_get(*value, key@) == member(members@, key@));
            while k < members.len()
                invariant
                    json_get(*value, key@) == member(members@, key@),
                    k <= members.len(),
                    member(members@, key@) == member(members@.skip(k as int), key@),
                decreases members.len() - k,
            {
                proof {
                    assert(members@.skip(k as int).drop_first() =~= members@.skip(k + 1));
                    assert(members@.skip(k as int)[0] == members@[k as int]);
                }
                if same_text(members[k].0.as_str(), key) {
                    assert(members@.skip(k as int).len() > 0);
                    return Some(&members[k].1);
                }
                k = k + 1;
            }
            None
        },
        _ => None,
    }
}

/// Whether `uri` embeds its data (`data:` scheme).
fn is_data_uri(uri: &String) -> (embedded: bool)
    ensures
        embedded == starts_with(uri@, data_scheme()),
{
    let chars = char_vec(uri.as_str());
    if chars.len() < 5 {
        return false;
    }
    let hit = chars[0] == 'd' && chars[1] == 'a' && chars[2] == 't' && chars[3] == 'a' && chars[4] == ':';
    proof {
        if hit {
            assert(chars@.subrange(0, 5) =~= data_scheme());
        }
        if starts_with(uri@, data_scheme()) {
            assert(chars@[0] == chars@.subrange(0, 5)[0]);
            assert(chars@[1] == chars@.subrange(0, 5)[1]);
            assert(chars@[2] == chars@.subrange(0, 5)[2]);
            assert(chars@[3] == chars@.subrange(0, 5)[3]);
            assert(chars@[4] == chars@.subrange(0, 5)[4]);
        }
    }
    hit
}

/// Whether the list `field` of the document holds an item that refers outside the file.
fn check_field(doc: &Json, field: &str) -> (outside: bool)
    ensures
        outside == field_refers_outside(*doc, field@),
{
    let found = get(doc, field);
    match found {
        Some(Json::Array(items)) => {
            assert(json_get(*doc, field@) == Some(Json::Array(*items)));
            let mut i: usize = 0;
            while i < items.len()
                invariant
                    json_get(*doc, field@) == Some(Json::Array(*items)),
                    i <= items.len(),
                    forall|j: int| 0 <= j < i ==> !#[trigger] refers_outside(items@[j]),
                decreases items.len() - i,
            {
                match get(&items[i], "uri") {
                    Some(Json::Str(uri)) => {
                        if !is_data_uri(uri) {
                            assert(json_get(items@[i as int], "uri"@) == Some(Json::Str(*uri)));
                            assert(refers_outside(items@[i as int]));
                            assert(any_refers_outside(items@));
                            return true;
                        }
                    },
                    _ => {},
                }
                i = i + 1;
            }
            false
        },
        _ => false,
    }
}

/// Checks that the bytes are a self-contained glTF 2.0 binary model: a size
/// between 20 bytes and 25 MiB, the `glTF` magic with version 2, a header
/// length equal to the file's length, a first chunk of type `JSON` that fits
/// in the file and parses, and no buffer or image whose `uri` points
/// outside the file (only `data:` URIs are allowed).
pub fn validate_glb(bytes: &[u8]) -> (r: Result<(), GlbError>)
    ensures
        r == spec_validate_glb(bytes@),
{
    if bytes.len() < 20 || bytes.len() > MAX_MODEL_BYTES {
        return Err(GlbError::SizeOutOfRange);
    }
    let magic = bytes[0] == 0x67u8 && bytes[1] == 0x6cu8 && bytes[2] == 0x54u8 && bytes[3] == 0x46u8;
    proof {
        if magic {
            assert(bytes@.subrange(0, 4) =~= glb_magic());
        } else {
            assert(bytes@.subrange(0, 4) != glb_magic()) by {
                if bytes@.subrange(0, 4) == glb_magic() {
                    assert(bytes@[0] == bytes@.subrange(0, 4)[0]);
                    assert(bytes@[1] == bytes@.subrange(0, 4)[1]);
                    assert(bytes@[2] == bytes@.subrange(0, 4)[2]);
                    assert(bytes@[3] == bytes@.subrange(0, 4)[3]);
                }
            }
        }
    }
    if !magic || read_u32_le(bytes, 4) != 2 {
        return Err(GlbError::NotGltf2);
    }
    if read_u32_le(bytes, 8) as usize != bytes.len() {
        return Err(GlbError::LengthMismatch);
    }
    let json_len = read_u32_le(bytes, 12) as usize;
    let tag = bytes[16] == 0x4au8 && bytes[17] == 0x53u8 && bytes[18] == 0x4fu8 && bytes[19] == 0x4eu8;
    proof {
        if tag {
            assert(bytes@.subrange(16, 20) =~= json_chunk_type());
        } else {
            assert(bytes@.subrange(16, 20) != json_chunk_type()) by {
                if bytes@.subrange(16, 20) == json_chunk_type() {
                    assert(bytes@[16] == bytes@.subrange(16, 20)[0]);
                    assert(bytes@[17] == bytes@.subrange(16, 20)[1]);
                    assert(bytes@[18] == bytes@.subrange(16, 20)[2]);
                    assert(bytes@[19] == bytes@.subrange(16, 20)[3]);
                }
            }
        }
    }
    if !tag || json_len > bytes.len() - 20 {
        return Err(GlbError::MissingJsonChunk);
    }
    let doc = match parse_json(&bytes[20..20 + json_len]) {
        Some(doc) => doc,
        None => {
            return Err(GlbError::InvalidJson);
        },
    };
    if check_field(&doc, "buffers") || check_field(&doc, "images") {
        return Err(GlbError::ExternalResource);
    }
    Ok(())
}

/// Refuses a read that brought more bytes than a model may have (the file
/// is read with a limit of one byte more than allowed).
pub fn check_read_size(bytes: &[u8]) -> (r: Result<(), GlbError>)
    ensures
        r == if bytes@.len() > MAX_MODEL_BYTES {
            Err::<(), GlbError>(GlbError::TooLarge)
        } else {
            Ok::<(), GlbError>(())
        },
{
    if bytes.len() > MAX_MODEL_BYTES {
        Err(GlbError::TooLarge)
    } else {
        Ok(())
    }
}

/// The chosen file's extension is `glb`, in any letter case.
pub open spec fn spec_is_glb_extension(ext: Option<Seq<char>>) -> bool {
    match ext {
        Some(e) => e.len() == 3 && (e[0] == 'g' || e[0] == 'G') && (e[1] == 'l' || e[1] == 'L') && (e[2] == 'b'
            || e[2] == 'B'),
        None => false,
    }
}

/// Whether a file with this extension (`None`: no extension) may be offered as a model.
pub fn is_glb_extension(ext: Option<&str>) -> (ok: bool)
    ensures
        ok == spec_is_glb_extension(
            match ext {
                Some(e) => Some(e@),
                None => None,
            },
        ),
{
    match ext {
        None => false,
        Some(e) => {
            let c = char_vec(e);
            c.len() == 3 && (c[0] == 'g' || c[0] == 'G') && (c[1] == 'l' || c[1] == 'L') && (c[2] == 'b' || c[2]
                == 'B')
        },
    }
}

/// At most the first `limit` characters of `s`.
pub fn take_chars(s: &str, limit: usize) -> (r: String)
    ensures
        r@ == if s@.len() <= limit {
            s@
        } else {
            s@.subrange(0, limit as int)
        },
{
    let n = s.unicode_len();
    if n <= limit {
        String::from_str(s)
    } else {
        String::from_str(s.substring_char(0, limit))
    }
}

/// The display name kept for a chosen model file: its first 80 characters.
pub fn model_display_name(file_name: &str) -> (r: String)
    ensures
        r@ == if file_name@.len() <= 80 {
            file_name@
        } else {
            file_name@.subrange(0, 80)
        },
{
    take_chars(file_name, 80)
}

/// The reason shown when the custom model failed to display: its first 200 characters.
pub fn load_failure_reason(reason: &str) -> (r: String)
    ensures
        r@ == if reason@.len() <= 200 {
            reason@
        } else {
            reason@.subrange(0, 200)
        },
{
    take_chars(reason, 200)
}

/// What the window receives for the active custom model: nothing when none
/// was chosen; otherwise the stored bytes, after the size check and the
/// model check, as standard Base64 text.
pub fn read_active_model(chosen: bool, bytes: &[u8]) -> (r: Result<String, GlbError>)
    ensures
        !chosen ==> r == Err::<String, GlbError>(GlbError::NoModelChosen),
        chosen && bytes@.len() > MAX_MODEL_BYTES ==> r == Err::<String, GlbError>(GlbError::TooLarge),
        chosen && bytes@.len() <= MAX_MODEL_BYTES ==> match spec_validate_glb(bytes@) {
            Err(e) => r == Err::<String, GlbError>(e),
            Ok(()) => r matches Ok(s) && s@ == base64_standard(bytes@),
        },
{
    if !chosen {
        return Err(GlbError::NoModelChosen);
    }
    check_read_size(bytes)?;
    validate_glb(bytes)?;
    Ok(encode_base64(bytes))
}

/// The bytes carry a valid GLB header and a JSON chunk that fits and parses to `doc`.
pub open spec fn well_formed_glb_with(b: Seq<u8>, doc: Json) -> bool {
    &&& 20 <= b.len() <= 26214400
    &&& b[0] == 0x67u8 && b[1] == 0x6cu8 && b[2] == 0x54u8 && b[3] == 0x46u8
    &&& b[4] + b[5] * 256 + b[6] * 65536 + b[7] * 16777216 == 2
    &&& b[8] + b[9] * 256 + b[10] * 65536 + b[11] * 16777216 == b.len()
    &&& b[16] == 0x4au8 && b[17] == 0x53u8 && b[18] == 0x4fu8 && b[19] == 0x4eu8
    &&& b[12] + b[13] * 256 + b[14] * 65536 + b[15] * 16777216 <= b.len() - 20
    &&& json_parse(b.subrange(20, 20 + b[12] + b[13] * 256 + b[14] * 65536 + b[15] * 16777216)) == Some(doc)
}

/// A well-formed GLB whose `buffers` or `images` list (either one, whatever
/// the other holds) has an item with a string `uri` not starting with
/// `data:` is refused as needing outside data.
pub proof fn lemma_outside_uri_is_refused(b: Seq<u8>, doc: Json, field: Seq<char>, items: Vec<Json>, i: int, uri: String)
    requires
        well_formed_glb_with(b, doc),
        field == "buffers"@ || field == "images"@,
        json_get(doc, field) == Some(Json::Array(items)),
        0 <= i < items@.len(),
        json_get(items@[i], "uri"@) == Some(Json::Str(uri)),
        !(uri@.len() >= 5 && uri@.subrange(0, 5) == seq!['d', 'a', 't', 'a', ':']),
    ensures
        spec_validate_glb(b) == Err::<(), GlbError>(GlbError::ExternalResource),
{
    assert(b.subrange(0, 4) =~= glb_magic());
    assert(b.subrange(16, 20) =~= json_chunk_type());
    assert(data_scheme() =~= seq!['d', 'a', 't', 'a', ':']);
    assert(refers_outside(items@[i]));
    assert(any_refers_outside(items@));
    assert(field_refers_outside(doc, field));
}

/// A well-formed GLB whose lists carry only embedded data (or no `uri`
/// strings at all) is accepted; and an accepted file's `buffers` and
/// `images` items all embed their data.
pub proof fn lemma_accepted_models_are_self_contained(b: Seq<u8>, doc: Json)
    requires
        well_formed_glb_with(b, doc),
    ensures
        spec_validate_glb(b) is Ok <==> forall|field: Seq<char>, items: Vec<Json>, i: int, uri: String|
            #![trigger json_get(doc, field), items@[i], uri@]
            (field == "buffers"@ || field == "images"@) && json_get(doc, field) == Some(Json::Array(items)) && 0
                <= i < items@.len() && json_get(items@[i], "uri"@) == Some(Json::Str(uri)) ==> (uri@.len()
                >= 5 && uri@.subrange(0, 5) == seq!['d', 'a', 't', 'a', ':']),
{
    assert(b.subrange(0, 4) =~= glb_magic());
    assert(b.subrange(16, 20) =~= json_chunk_type());
    assert(data_scheme() =~= seq!['d', 'a', 't', 'a', ':']);
    if spec_validate_glb(b) is Ok {
        assert forall|field: Seq<char>, items: Vec<Json>, i: int, uri: String|
            #![trigger json_get(doc, field), items@[i], uri@]
            (field == "buffers"@ || field == "images"@) && json_get(doc, field) == Some(Json::Array(items)) && 0
                <= i < items@.len() && json_get(items@[i], "uri"@) == Some(Json::Str(uri)) implies (uri@.len()
                >= 5 && uri@.subrange(0, 5) == seq!['d', 'a', 't', 'a', ':']) by {
            if !(uri@.len() >= 5 && uri@.subrange(0, 5) == seq!['d', 'a', 't', 'a', ':']) {
                lemma_outside_uri_is_refused(b, doc, field, items, i, uri);
            }
        }
    } else {
        assert(needs_outside_data(doc));
        let field = if field_refers_outside(doc, "buffers"@) { "buffers"@ } else { "images"@ };
        assert(field_refers_outside(doc, field));
        let items = match json_get(doc, field) {
            Some(Json::Array(items)) => items,
            _ => arbitrary(),
        };
        let i = choose|i: int| 0 <= i < items@.len() && #[trigger] refers_outside(items@[i]);
        let uri = match json_get(items@[i], "uri"@) {
            Some(Json::Str(u)) => u,
            _ => arbitrary(),
        };
        assert(json_get(items@[i], "uri"@) == Some(Json::Str(uri)));
    }
}

/// The header checks, in the order they are made: a size outside 20 bytes
/// to 25 MiB, then a wrong magic or version, then a length field that is
/// not the file's length, then a missing or oversized JSON chunk; and an
/// accepted file passes all of them.
pub proof fn lemma_header_checks(b: Seq<u8>)
    ensures
        (b.len() < 20 || b.len() > 26214400) ==> spec_validate_glb(b) == Err::<(), GlbError>(
            GlbError::SizeOutOfRange,
        ),
        (20 <= b.len() <= 26214400 && !(b[0] == 0x67u8 && b[1] == 0x6cu8 && b[2] == 0x54u8 && b[3] == 0x46u8
            && b[4] + b[5] * 256 + b[6] * 65536 + b[7] * 16777216 == 2)) ==> spec_validate_glb(b) == Err::<
            (),
            GlbError,
        >(GlbError::NotGltf2),
        (20 <= b.len() <= 26214400 && b[0] == 0x67u8 && b[1] == 0x6cu8 && b[2] == 0x54u8 && b[3] == 0x46u8 && b[4]
            + b[5] * 256 + b[6] * 65536 + b[7] * 16777216 == 2 && b[8] + b[9] * 256 + b[10] * 65536 + b[11]
            * 16777216 != b.len()) ==> spec_validate_glb(b) == Err::<(), GlbError>(GlbError::LengthMismatch),
        (20 <= b.len() <= 26214400 && b[0] == 0x67u8 && b[1] == 0x6cu8 && b[2] == 0x54u8 && b[3] == 0x46u8 && b[4]
            + b[5] * 256 + b[6] * 65536 + b[7] * 16777216 == 2 && b[8] + b[9] * 256 + b[10] * 65536 + b[11]
            * 16777216 == b.len() && !(b[16] == 0x4au8 && b[17] == 0x53u8 && b[18] == 0x4fu8 && b[19] == 0x4eu8
            && b[12] + b[13] * 256 + b[14] * 65536 + b[15] * 16777216 <= b.len() - 20)) ==> spec_validate_glb(b)
            == Err::<(), GlbError>(GlbError::MissingJsonChunk),
        spec_validate_glb(b) is Ok ==> exists|doc: Json| well_formed_glb_with(b, doc),
{
    if 20 <= b.len() {
        let m = b.subrange(0, 4);
        if m == glb_magic() {
            assert(b[0] == m[0] && b[1] == m[1] && b[2] == m[2] && b[3] == m[3]);
        }
        if b[0] == 0x67u8 && b[1] == 0x6cu8 && b[2] == 0x54u8 && b[3] == 0x46u8 {
            assert(m =~= glb_magic());
        }
        let t = b.subrange(16, 20);
        if t == json_chunk_type() {
            assert(b[16] == t[0] && b[17] == t[1] && b[18] == t[2] && b[19] == t[3]);
        }
        if b[16] == 0x4au8 && b[17] == 0x53u8 && b[18] == 0x4fu8 && b[19] == 0x4eu8 {
            assert(t =~= json_chunk_type());
        }
        if spec_validate_glb(b) is Ok {
            let doc = json_parse(b.subrange(20, 20 + le_u32(b, 12))).unwrap();
            assert(well_formed_glb_with(b, doc));
        }
    }
}

} // verus!
