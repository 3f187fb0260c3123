//! Asset operations: creating and updating assets from a file, reading an
//! asset or an operation, and archiving or restoring an asset.
use crate::error::{malformed, Error};
use crate::json::{
    json_array_len, json_bool_at, json_bool_field, json_item_at, json_item_text, json_len_at,
    json_str_at, json_str_field, json_sub_at, json_sub_text, json_u64_at, json_u64_field,
};

use crate::http::{
    api_headers, api_json_headers, json_headers, key_headers, FilePart, FileSource, HttpMethod,
    Request, RequestBody,
};
use crate::text::{
    opt_text, concat, decimal, json_quote, json_string, opt_pair, pairs, push_opt, str_eq,
    u64_to_decimal,
};
use vstd::prelude::*;
use vstd::slice::slice_to_vec;
use vstd::string::*;

verus! {

/// A creator that is a user.
#[derive(Debug, Clone)]
pub struct AssetUserCreator {
    pub user_id: String,
}

/// A creator that is a group.
#[derive(Debug, Clone)]
pub struct AssetGroupCreator {
    pub group_id: String,
}

/// The creator of an asset.
#[derive(Debug, Clone)]
pub enum AssetCreator {
    User(AssetUserCreator),
    Group(AssetGroupCreator),
}

/// Who creates an asset, and the price they expect.
#[derive(Debug, Clone)]
pub struct AssetCreationContext {
    pub creator: AssetCreator,
    pub expected_price: Option<u64>,
}

/// The kind of creator named on the command line.
#[derive(Debug, Clone, Copy, PartialEq, Eq, Structural)]
pub enum CreatorType {
    User,
    Group,
}

/// The type of an asset file, one per supported extension family.
#[derive(Debug, Clone, Copy, PartialEq, Eq, Structural)]
pub enum AssetType {
    AudioMp3,
    AudioOgg,
    AudioFlac,
    AudioWav,
    DecalPng,
    DecalJpeg,
    DecalBmp,
    DecalTga,
    ModelFbx,
}

/// The coarse category of an asset.
#[derive(Debug, Clone, Copy, PartialEq, Eq, Structural)]
pub enum AssetTypeCategory {
    Audio,
    Decal,
    Model,
}

/// The description of an asset to create.
#[derive(Debug, Clone)]
pub struct AssetCreation {
    pub asset_type: AssetType,
    pub display_name: String,
    pub description: String,
    pub creation_context: AssetCreationContext,
}

/// Parameters of creating an asset from a file.
pub struct CreateAssetParams {
    pub api_key: String,
    pub asset: AssetCreation,
    pub filepath: String,
}

/// Parameters of creating an asset from bytes in memory.
pub struct CreateAssetParamsWithContents<'a> {
    pub api_key: String,
    pub asset: AssetCreation,
    pub contents: &'a [u8],
}

/// Parameters of uploading a new revision of an asset.
pub struct UpdateAssetParams {
    pub api_key: String,
    pub asset_id: u64,
    pub asset_type: AssetType,
    pub filepath: String,
}

/// Parameters of reading an asset operation.
pub struct GetAssetOperationParams {
    pub api_key: String,
    pub operation_id: String,
}

/// Parameters of reading an asset.
pub struct GetAssetParams {
    pub api_key: String,
    pub asset_id: u64,
    pub read_mask: Option<String>,
}

/// Parameters of archiving or restoring an asset.
pub struct ArchiveAssetParams {
    pub api_key: String,
    pub asset_id: u64,
}

/// The MIME type of a file of this type.
pub open spec fn mime_of(t: AssetType) -> Seq<char> {
    match t {
        AssetType::AudioMp3 => "audio/mpeg"@,
        AssetType::AudioOgg => "audio/ogg"@,
        AssetType::AudioFlac => "audio/flac"@,
        AssetType::AudioWav => "audio/wav"@,
        AssetType::DecalPng => "image/png"@,
        AssetType::DecalJpeg => "image/jpeg"@,
        AssetType::DecalBmp => "image/bmp"@,
        AssetType::DecalTga => "image/tga"@,
        AssetType::ModelFbx => "model/fbx"@,
    }
}

/// The category of an asset of this type.
pub open spec fn category_of(t: AssetType) -> AssetTypeCategory {
    match t {
        AssetType::AudioMp3 | AssetType::AudioOgg | AssetType::AudioFlac | AssetType::AudioWav => AssetTypeCategory::Audio,
        AssetType::DecalPng | AssetType::DecalJpeg | AssetType::DecalBmp | AssetType::DecalTga => AssetTypeCategory::Decal,
        AssetType::ModelFbx => AssetTypeCategory::Model,
    }
}

/// The name of a category, as the service writes it.
pub open spec fn category_name(c: AssetTypeCategory) -> Seq<char> {
    match c {
        AssetTypeCategory::Audio => "Audio"@,
        AssetTypeCategory::Decal => "Decal"@,
        AssetTypeCategory::Model => "Model"@,
    }
}

/// The asset type of a lower-case file extension, if it is supported.
pub open spec fn type_of_extension(ext: Seq<char>) -> Option<AssetType> {
    if ext == "mp3"@ {
        Some(AssetType::AudioMp3)
    } else if ext == "ogg"@ {
        Some(AssetType::AudioOgg)
    } else if ext == "flac"@ {
        Some(AssetType::AudioFlac)
    } else if ext == "wav"@ {
        Some(AssetType::AudioWav)
    } else if ext == "png"@ {
        Some(AssetType::DecalPng)
    } else if ext == "jpg"@ || ext == "jpeg"@ {
        Some(AssetType::DecalJpeg)
    } else if ext == "bmp"@ {
        Some(AssetType::DecalBmp)
    } else if ext == "tga"@ {
        Some(AssetType::DecalTga)
    } else if ext == "fbx"@ {
        Some(AssetType::ModelFbx)
    } else {
        None
    }
}

/// The lower-case form of a text.
pub uninterp spec fn lower_of(s: Seq<char>) -> Seq<char>;

/// Relies on `str::to_lowercase`: the lower-case form of `s`, which
/// depends on its characters alone.
#[verifier::external_body]
fn lowercase(s: &str) -> (r: String)
    ensures
        r@ == lower_of(s@),
{
    s.to_lowercase()
}

/// The extension of the last component of a path.
pub uninterp spec fn extension_of(path: Seq<char>) -> Option<Seq<char>>;

/// Relies on `Path::extension` and `OsStr::to_str`: the text after the last
/// dot of the file name, which depends on the path text alone.
#[verifier::external_body]
fn path_extension(path: &str) -> (r: Option<String>)
    ensures
        match r {
            Some(e) => extension_of(path@) == Some(e@),
            None => extension_of(path@) is None,
        },
{
    std::path::Path::new(path).extension().and_then(|e| e.to_str()).map(|e| e.to_string())
}

/// The last component of a path.
pub uninterp spec fn file_name_of(path: Seq<char>) -> Option<Seq<char>>;

/// Relies on `Path::file_name` and `OsStr::to_str`: the last component of
/// the path, which depends on the path text alone.
#[verifier::external_body]
fn path_file_name(path: &str) -> (r: Option<String>)
    ensures
        match r {
            Some(e) => file_name_of(path@) == Some(e@),
            None => file_name_of(path@) is None,
        },
{
    std::path::Path::new(path).file_name().and_then(|e| e.to_str()).map(|e| e.to_string())
}

impl AssetType {
    /// The MIME type of a file of this type.
    pub fn content_type(&self) -> (r: &'static str)
        ensures
            r@ == mime_of(*self),
    {
        match self {
            AssetType::AudioMp3 => "audio/mpeg",
            AssetType::AudioOgg => "audio/ogg",
            AssetType::AudioFlac => "audio/flac",
            AssetType::AudioWav => "audio/wav",
            AssetType::DecalPng => "image/png",
            AssetType::DecalJpeg => "image/jpeg",
            AssetType::DecalBmp => "image/bmp",
            AssetType::DecalTga => "image/tga",
            AssetType::ModelFbx => "model/fbx",
        }
    }

    /// The name of the category of this type.
    pub fn asset_type(&self) -> (r: &'static str)
        ensures
            r@ == category_name(category_of(*self)),
    {
        match self {
            AssetType::AudioMp3 | AssetType::AudioOgg | AssetType::AudioFlac | AssetType::AudioWav => "Audio",
            AssetType::DecalPng | AssetType::DecalJpeg | AssetType::DecalBmp | AssetType::DecalTga => "Decal",
            AssetType::ModelFbx => "Model",
        }
    }

    /// The category of this type.
    pub fn category(&self) -> (r: AssetTypeCategory)
        ensures
            r == category_of(*self),
    {
        match self {
            AssetType::AudioMp3 | AssetType::AudioOgg | AssetType::AudioFlac | AssetType::AudioWav => AssetTypeCategory::Audio,
            AssetType::DecalPng | AssetType::DecalJpeg | AssetType::DecalBmp | AssetType::DecalTga => AssetTypeCategory::Decal,
            AssetType::ModelFbx => AssetTypeCategory::Model,
        }
    }

    /// The type of an extension that is already in lower case; an
    /// unsupported one is an inference error.
    pub fn from_lowercase_extension(ext: &str) -> (r: Result<AssetType, Error>)
        ensures
            match type_of_extension(ext@) {
                Some(t) => r == Ok::<AssetType, Error>(t),
                None => r matches Err(e) && e is InferAssetTypeError,
            },
    {
        if str_eq(ext, "mp3") {
            Ok(AssetType::AudioMp3)
        } else if str_eq(ext, "ogg") {
            Ok(AssetType::AudioOgg)
        } else if str_eq(ext, "flac") {
            Ok(AssetType::AudioFlac)
        } else if str_eq(ext, "wav") {
            Ok(AssetType::AudioWav)
        } else if str_eq(ext, "png") {
            Ok(AssetType::DecalPng)
        } else if str_eq(ext, "jpg") || str_eq(ext, "jpeg") {
            Ok(AssetType::DecalJpeg)
        } else if str_eq(ext, "bmp") {
            Ok(AssetType::DecalBmp)
        } else if str_eq(ext, "tga") {
            Ok(AssetType::DecalTga)
        } else if str_eq(ext, "fbx") {
            Ok(AssetType::ModelFbx)
        } else {
            Err(Error::InferAssetTypeError(String::from_str("Unknown extension")))
        }
    }

    /// The type of a file extension, in any case.
    pub fn try_from_extension(extension: &str) -> (r: Result<AssetType, Error>)
        ensures
            match type_of_extension(lower_of(extension@)) {
                Some(t) => r == Ok::<AssetType, Error>(t),
                None => r matches Err(e) && e is InferAssetTypeError,
            },
    {
        let lower = lowercase(extension);
        AssetType::from_lowercase_extension(lower.as_str())
    }
}

/// Infers the type of an asset from the extension of its file; a path
/// without an extension is an inference error that names the path.
pub fn infer_asset_type_from_filepath(filepath: &String) -> (r: Result<AssetType, Error>)
    ensures
        match extension_of(filepath@) {
            None => r matches Err(e) && e matches Error::InferAssetTypeError(s) && s@ == filepath@,
            Some(ext) => match type_of_extension(lower_of(ext)) {
                Some(t) => r == Ok::<AssetType, Error>(t),
                None => r matches Err(e) && e is InferAssetTypeError,
            },
        },
{
    match path_extension(filepath.as_str()) {
        Some(ext) => AssetType::try_from_extension(ext.as_str()),
        None => Err(Error::InferAssetTypeError(filepath.clone())),
    }
}

/// The creation context of a creator of the given kind; an absent price is
/// zero.
pub fn create_context_from_creator_type(creator_type: CreatorType, creator_id: u64, expected_price: Option<u64>) -> (r: AssetCreationContext)
    ensures
        r.expected_price == Some(
            match expected_price {
                Some(p) => p,
                None => 0u64,
            },
        ),
        match creator_type {
            CreatorType::User => r.creator matches AssetCreator::User(u) && u.user_id@ == decimal(creator_id as nat),
            CreatorType::Group => r.creator matches AssetCreator::Group(g) && g.group_id@ == decimal(creator_id as nat),
        },
{
    let expected_price = match expected_price {
        Some(p) => p,
        None => 0,
    };
    match creator_type {
        CreatorType::User => AssetCreationContext {
            expected_price: Some(expected_price),
            creator: AssetCreator::User(AssetUserCreator { user_id: u64_to_decimal(creator_id) }),
        },
        CreatorType::Group => AssetCreationContext {
            expected_price: Some(expected_price),
            creator: AssetCreator::Group(AssetGroupCreator { group_id: u64_to_decimal(creator_id) }),
        },
    }
}

/// JSON of a creator.
pub open spec fn creator_json(c: AssetCreator) -> Seq<char> {
    match c {
        AssetCreator::User(u) => "{\"userId\":"@ + json_string(u.user_id@) + "}"@,
        AssetCreator::Group(g) => "{\"groupId\":"@ + json_string(g.group_id@) + "}"@,
    }
}

/// JSON of an optional price.
pub open spec fn price_json(p: Option<u64>) -> Seq<char> {
    match p {
        Some(v) => decimal(v as nat),
        None => "null"@,
    }
}

/// JSON of a creation context.
pub open spec fn context_json(c: AssetCreationContext) -> Seq<char> {
    "{\"creator\":"@ + creator_json(c.creator) + ",\"expectedPrice\":"@ + price_json(c.expected_price) + "}"@
}

/// JSON of the description of an asset to create; the type is written as
/// its category.
pub open spec fn creation_json(a: AssetCreation) -> Seq<char> {
    "{\"assetType\":\""@ + category_name(category_of(a.asset_type)) + "\",\"displayName\":"@
        + json_string(a.display_name@) + ",\"description\":"@ + json_string(a.description@)
        + ",\"creationContext\":"@ + context_json(a.creation_context) + "}"@
}

fn creator_to_json(c: &AssetCreator) -> (r: String)
    ensures
        r@ == creator_json(*c),
{
    let (head, id) = match c {
        AssetCreator::User(u) => ("{\"userId\":", &u.user_id),
        AssetCreator::Group(g) => ("{\"groupId\":", &g.group_id),
    };
    let q = json_quote(id.as_str());
    let mut s = concat(head, q.as_str());
    s.append("}");
    s
}

fn context_to_json(c: &AssetCreationContext) -> (r: String)
    ensures
        r@ == context_json(*c),
{
    let creator = creator_to_json(&c.creator);
    let mut s = concat("{\"creator\":", creator.as_str());
    s.append(",\"expectedPrice\":");
    match c.expected_price {
        Some(v) => {
            let d = u64_to_decimal(v);
            s.append(d.as_str());
        },
        None => s.append("null"),
    }
    s.append("}");
    s
}

impl AssetCreator {
    /// A copy of this creator with the same JSON form.
    pub fn duplicate(&self) -> (r: AssetCreator)
        ensures
            creator_json(r) == creator_json(*self),
    {
        match self {
            AssetCreator::User(u) => AssetCreator::User(AssetUserCreator { user_id: u.user_id.clone() }),
            AssetCreator::Group(g) => AssetCreator::Group(AssetGroupCreator { group_id: g.group_id.clone() }),
        }
    }
}

impl AssetCreationContext {
    /// A copy of this context with the same JSON form.
    pub fn duplicate(&self) -> (r: AssetCreationContext)
        ensures
            context_json(r) == context_json(*self),
    {
        AssetCreationContext { creator: self.creator.duplicate(), expected_price: self.expected_price }
    }
}

impl AssetCreation {
    /// A copy of this description with the same type, display name and JSON
    /// form.
    pub fn duplicate(&self) -> (r: AssetCreation)
        ensures
            r.asset_type == self.asset_type,
            r.display_name@ == self.display_name@,
            creation_json(r) == creation_json(*self),
    {
        AssetCreation {
            asset_type: self.asset_type,
            display_name: self.display_name.clone(),
            description: self.description.clone(),
            creation_context: self.creation_context.duplicate(),
        }
    }
}

impl AssetCreation {
    /// The JSON text of this description, as sent in the `request` part.
    pub fn to_json(&self) -> (r: String)
        ensures
            r@ == creation_json(*self),
    {
        let mut s = concat("{\"assetType\":\"", self.asset_type.asset_type());
        s.append("\",\"displayName\":");
        let name = json_quote(self.display_name.as_str());
        s.append(name.as_str());
        s.append(",\"description\":");
        let desc = json_quote(self.description.as_str());
        s.append(desc.as_str());
        s.append(",\"creationContext\":");
        let ctx = context_to_json(&self.creation_context);
        s.append(ctx.as_str());
        s.append("}");
        s
    }
}

/// The URL of the assets collection, or of one asset.
pub open spec fn assets_url(asset_id: Option<u64>) -> Seq<char> {
    match asset_id {
        Some(id) => "https://apis.roblox.com/assets/v1/assets/"@ + decimal(id as nat),
        None => "https://apis.roblox.com/assets/v1/assets"@,
    }
}

/// Builds the URL of the assets collection, or of one asset.
pub fn build_url(asset_id: Option<u64>) -> (r: String)
    ensures
        r@ == assets_url(asset_id),
{
    match asset_id {
        Some(id) => {
            let d = u64_to_decimal(id);
            concat("https://apis.roblox.com/assets/v1/assets/", d.as_str())
        },
        None => String::from_str("https://apis.roblox.com/assets/v1/assets"),
    }
}

/// A multipart upload whose `request` part is `request` and whose
/// `fileContent` part has the given name, type and source.
pub open spec fn is_upload(body: RequestBody, request: Seq<char>, file_name: Seq<char>, mime: Seq<char>) -> bool {
    body matches RequestBody::Multipart { request: q, file } && q@ == request && file.field@ == "fileContent"@
        && file.file_name@ == file_name && file.mime@ == mime
}

/// The file part of a multipart body is read from the file at `path`.
pub open spec fn upload_from_path(body: RequestBody, path: Seq<char>) -> bool {
    body matches RequestBody::Multipart { file, .. } && file.source matches FileSource::Path(p) && p@ == path
}

/// The request that creates an asset from a file. The file part is named
/// after the last component of the path and typed by the asset type; a
/// path with no last component is a file error, and no request is made.
pub fn create_asset(params: &CreateAssetParams) -> (r: Result<Request, Error>)
    ensures
        match file_name_of(params.filepath@) {
            None => r matches Err(e) && e is FileLoadError,
            Some(name) => r matches Ok(q) && {
                &&& q.method == HttpMethod::Post
                &&& q.url@ == assets_url(None)
                &&& pairs(q.headers@) == key_headers(params.api_key@)
                &&& q.query@.len() == 0
                &&& is_upload(q.body, creation_json(params.asset), name, mime_of(params.asset.asset_type))
                &&& upload_from_path(q.body, params.filepath@)
            },
        },
{
    let file_name = match path_file_name(params.filepath.as_str()) {
        Some(n) => n,
        None => {
            return Err(Error::FileLoadError(String::from_str("Failed to parse file name from file path")));
        },
    };
    let file = FilePart {
        field: String::from_str("fileContent"),
        file_name,
        mime: String::from_str(params.asset.asset_type.content_type()),
        source: FileSource::Path(params.filepath.clone()),
    };
    Ok(Request {
        method: HttpMethod::Post,
        url: build_url(None),
        headers: api_headers(&params.api_key),
        query: Vec::new(),
        body: RequestBody::Multipart { request: params.asset.to_json(), file },
    })
}

/// The request that creates an asset from bytes in memory. The file part
/// is named after the display name of the asset.
pub fn create_asset_with_contents<'a>(params: &CreateAssetParamsWithContents<'a>) -> (r: Request)
    ensures
        r.method == HttpMethod::Post,
        r.url@ == assets_url(None),
        pairs(r.headers@) == key_headers(params.api_key@),
        r.query@.len() == 0,
        is_upload(r.body, creation_json(params.asset), params.asset.display_name@, mime_of(params.asset.asset_type)),
        r.body matches RequestBody::Multipart { file, .. } && file.source matches FileSource::Bytes(b) && b@ == params.contents@,
{
    let file = FilePart {
        field: String::from_str("fileContent"),
        file_name: params.asset.display_name.clone(),
        mime: String::from_str(params.asset.asset_type.content_type()),
        source: FileSource::Bytes(slice_to_vec(params.contents)),
    };
    Request {
        method: HttpMethod::Post,
        url: build_url(None),
        headers: api_headers(&params.api_key),
        query: Vec::new(),
        body: RequestBody::Multipart { request: params.asset.to_json(), file },
    }
}

/// JSON that names an asset by id.
pub open spec fn asset_id_json(id: u64) -> Seq<char> {
    "{\"assetId\":"@ + decimal(id as nat) + "}"@
}

/// The request that uploads a new revision of an asset from a file.
pub fn update_asset(params: &UpdateAssetParams) -> (r: Result<Request, Error>)
    ensures
        match file_name_of(params.filepath@) {
            None => r matches Err(e) && e is FileLoadError,
            Some(name) => r matches Ok(q) && {
                &&& q.method == HttpMethod::Patch
                &&& q.url@ == assets_url(Some(params.asset_id))
                &&& pairs(q.headers@) == key_headers(params.api_key@)
                &&& q.query@.len() == 0
                &&& is_upload(q.body, asset_id_json(params.asset_id), name, mime_of(params.asset_type))
                &&& upload_from_path(q.body, params.filepath@)
            },
        },
{
    let file_name = match path_file_name(params.filepath.as_str()) {
        Some(n) => n,
        None => {
            return Err(Error::FileLoadError(String::from_str("Failed to parse file name from file path")));
        },
    };
    let file = FilePart {
        field: String::from_str("fileContent"),
        file_name,
        mime: String::from_str(params.asset_type.content_type()),
        source: FileSource::Path(params.filepath.clone()),
    };
    let id = u64_to_decimal(params.asset_id);
    let mut request = concat("{\"assetId\":", id.as_str());
    request.append("}");
    Ok(Request {
        method: HttpMethod::Patch,
        url: build_url(Some(params.asset_id)),
        headers: api_headers(&params.api_key),
        query: Vec::new(),
        body: RequestBody::Multipart { request, file },
    })
}

/// The request that reads an asset operation.
pub fn get_operation(params: &GetAssetOperationParams) -> (r: Request)
    ensures
        r.method == HttpMethod::Get,
        r.url@ == "https://apis.roblox.com/assets/v1/operations/"@ + params.operation_id@,
        pairs(r.headers@) == key_headers(params.api_key@),
        r.query@.len() == 0,
        r.body is Empty,
{
    Request {
        method: HttpMethod::Get,
        url: concat("https://apis.roblox.com/assets/v1/operations/", params.operation_id.as_str()),
        headers: api_headers(&params.api_key),
        query: Vec::new(),
        body: RequestBody::Empty,
    }
}

/// The request that reads an asset, limited to the fields of the read mask
/// when one is given.
pub fn get_asset(params: &GetAssetParams) -> (r: Request)
    ensures
        r.method == HttpMethod::Get,
        r.url@ == assets_url(Some(params.asset_id)),
        pairs(r.headers@) == key_headers(params.api_key@),
        pairs(r.query@) == opt_pair("readMask"@, params.read_mask),
        r.body is Empty,
{
    let mut q: Vec<(String, String)> = Vec::new();
    push_opt(&mut q, "readMask", &params.read_mask);
    assert(pairs(q@) =~= opt_pair("readMask"@, params.read_mask));
    Request {
        method: HttpMethod::Get,
        url: build_url(Some(params.asset_id)),
        headers: api_headers(&params.api_key),
        query: q,
        body: RequestBody::Empty,
    }
}

fn asset_action(params: &ArchiveAssetParams, action: &str) -> (r: Request)
    ensures
        r.method == HttpMethod::Post,
        r.url@ == assets_url(Some(params.asset_id)) + action@,
        pairs(r.headers@) == json_headers(params.api_key@),
        r.query@.len() == 0,
        r.body is Empty,
{
    let mut url = build_url(Some(params.asset_id));
    url.append(action);
    Request {
        method: HttpMethod::Post,
        url,
        headers: api_json_headers(&params.api_key),
        query: Vec::new(),
        body: RequestBody::Empty,
    }
}

/// The request that archives an asset.
pub fn archive_asset(params: &ArchiveAssetParams) -> (r: Request)
    ensures
        r.method == HttpMethod::Post,
        r.url@ == assets_url(Some(params.asset_id)) + ":archive"@,
        pairs(r.headers@) == json_headers(params.api_key@),
        r.query@.len() == 0,
        r.body is Empty,
{
    asset_action(params, ":archive")
}

/// The request that restores an archived asset.
pub fn restore_asset(params: &ArchiveAssetParams) -> (r: Request)
    ensures
        r.method == HttpMethod::Post,
        r.url@ == assets_url(Some(params.asset_id)) + ":restore"@,
        pairs(r.headers@) == json_headers(params.api_key@),
        r.query@.len() == 0,
        r.body is Empty,
{
    asset_action(params, ":restore")
}

/// Each supported extension names one asset type, and the content type
/// and the category both follow from it: audio files are `Audio`, images
/// `Decal` and models `Model`.
pub proof fn lemma_extension_tables()
    ensures
        type_of_extension("mp3"@) == Some(AssetType::AudioMp3) && mime_of(AssetType::AudioMp3) == "audio/mpeg"@ && category_of(AssetType::AudioMp3) == AssetTypeCategory::Audio,
        type_of_extension("ogg"@) == Some(AssetType::AudioOgg) && mime_of(AssetType::AudioOgg) == "audio/ogg"@ && category_of(AssetType::AudioOgg) == AssetTypeCategory::Audio,
        type_of_extension("flac"@) == Some(AssetType::AudioFlac) && mime_of(AssetType::AudioFlac) == "audio/flac"@ && category_of(AssetType::AudioFlac) == AssetTypeCategory::Audio,
        type_of_extension("wav"@) == Some(AssetType::AudioWav) && mime_of(AssetType::AudioWav) == "audio/wav"@ && category_of(AssetType::AudioWav) == AssetTypeCategory::Audio,
        type_of_extension("png"@) == Some(AssetType::DecalPng) && mime_of(AssetType::DecalPng) == "image/png"@ && category_of(AssetType::DecalPng) == AssetTypeCategory::Decal,
        type_of_extension("jpg"@) == Some(AssetType::DecalJpeg) && mime_of(AssetType::DecalJpeg) == "image/jpeg"@ && category_of(AssetType::DecalJpeg) == AssetTypeCategory::Decal,
        type_of_extension("jpeg"@) == Some(AssetType::DecalJpeg) && mime_of(AssetType::DecalJpeg) == "image/jpeg"@ && category_of(AssetType::DecalJpeg) == AssetTypeCategory::Decal,
        type_of_extension("bmp"@) == Some(AssetType::DecalBmp) && mime_of(AssetType::DecalBmp) == "image/bmp"@ && category_of(AssetType::DecalBmp) == AssetTypeCategory::Decal,
        type_of_extension("tga"@) == Some(AssetType::DecalTga) && mime_of(AssetType::DecalTga) == "image/tga"@ && category_of(AssetType::DecalTga) == AssetTypeCategory::Decal,
        type_of_extension("fbx"@) == Some(AssetType::ModelFbx) && mime_of(AssetType::ModelFbx) == "model/fbx"@ && category_of(AssetType::ModelFbx) == AssetTypeCategory::Model,
{
    reveal_strlit("mp3");
    reveal_strlit("ogg");
    reveal_strlit("flac");
    reveal_strlit("wav");
    reveal_strlit("png");
    reveal_strlit("jpg");
    reveal_strlit("jpeg");
    reveal_strlit("bmp");
    reveal_strlit("tga");
    reveal_strlit("fbx");
    assert("mp3"@[0] != "ogg"@[0]);
    assert("mp3"@.len() != "flac"@.len());
    assert("ogg"@.len() != "flac"@.len());
    assert("mp3"@[0] != "wav"@[0]);
    assert("ogg"@[0] != "wav"@[0]);
    assert("flac"@.len() != "wav"@.len());
    assert("mp3"@[0] != "png"@[0]);
    assert("ogg"@[0] != "png"@[0]);
    assert("flac"@.len() != "png"@.len());
    assert("wav"@[0] != "png"@[0]);
    assert("mp3"@[0] != "jpg"@[0]);
    assert("ogg"@[0] != "jpg"@[0]);
    assert("flac"@.len() != "jpg"@.len());
    assert("wav"@[0] != "jpg"@[0]);
    assert("png"@[0] != "jpg"@[0]);
    assert("mp3"@.len() != "jpeg"@.len());
    assert("ogg"@.len() != "jpeg"@.len());
    assert("flac"@[0] != "jpeg"@[0]);
    assert("wav"@.len() != "jpeg"@.len());
    assert("png"@.len() != "jpeg"@.len());
    assert("jpg"@.len() != "jpeg"@.len());
    assert("mp3"@[0] != "bmp"@[0]);
    assert("ogg"@[0] != "bmp"@[0]);
    assert("flac"@.len() != "bmp"@.len());
    assert("wav"@[0] != "bmp"@[0]);
    assert("png"@[0] != "bmp"@[0]);
    assert("jpg"@[0] != "bmp"@[0]);
    assert("jpeg"@.len() != "bmp"@.len());
    assert("mp3"@[0] != "tga"@[0]);
    assert("ogg"@[0] != "tga"@[0]);
    assert("flac"@.len() != "tga"@.len());
    assert("wav"@[0] != "tga"@[0]);
    assert("png"@[0] != "tga"@[0]);
    assert("jpg"@[0] != "tga"@[0]);
    assert("jpeg"@.len() != "tga"@.len());
    assert("bmp"@[0] != "tga"@[0]);
    assert("mp3"@[0] != "fbx"@[0]);
    assert("ogg"@[0] != "fbx"@[0]);
    assert("flac"@.len() != "fbx"@.len());
    assert("wav"@[0] != "fbx"@[0]);
    assert("png"@[0] != "fbx"@[0]);
    assert("jpg"@[0] != "fbx"@[0]);
    assert("jpeg"@.len() != "fbx"@.len());
    assert("bmp"@[0] != "fbx"@[0]);
    assert("tga"@[0] != "fbx"@[0]);
}

/// An extension outside the table names no asset type, so inferring a type
/// from it fails.
pub proof fn lemma_unknown_extension(ext: Seq<char>)
    requires
        ext != "mp3"@ && ext != "ogg"@ && ext != "flac"@ && ext != "wav"@ && ext != "png"@ && ext != "jpg"@
            && ext != "jpeg"@ && ext != "bmp"@ && ext != "tga"@ && ext != "fbx"@,
    ensures
        type_of_extension(ext) is None,
{
}

/// `body` has the JSON shape of a creator: a user id or a group id.
pub open spec fn asset_creator_parses(body: Seq<char>) -> bool {
    json_str_at(body, "userId"@) is Some || json_str_at(body, "groupId"@) is Some
}

/// `body` is the JSON form of the creator `v`; a user id is read first.
pub open spec fn asset_creator_matches(body: Seq<char>, v: AssetCreator) -> bool {
    match v {
        AssetCreator::User(u) => json_str_at(body, "userId"@) == Some(u.user_id@),
        AssetCreator::Group(g) => json_str_at(body, "userId"@) is None && json_str_at(body, "groupId"@)
            == Some(g.group_id@),
    }
}

impl AssetCreator {
    /// Reads a creator out of a JSON body: a user when it holds a user id,
    /// a group when it holds a group id instead.
    pub fn decode(body: &str) -> (r: Result<AssetCreator, Error>)
        ensures
            asset_creator_parses(body@) <==> r is Ok,
            r matches Ok(v) ==> asset_creator_matches(body@, v),
            r matches Err(e) ==> e is SerdeJsonError,
    {
        match json_str_field(body, "userId") {
            Some(user_id) => Ok(AssetCreator::User(AssetUserCreator { user_id })),
            None => match json_str_field(body, "groupId") {
                Some(group_id) => Ok(AssetCreator::Group(AssetGroupCreator { group_id })),
                None => Err(malformed("AssetCreator")),
            },
        }
    }
}

/// `body` has the JSON shape of a [`AssetCreationContext`].
pub open spec fn asset_creation_context_parses(body: Seq<char>) -> bool {
    &&& json_sub_at(body, "creator"@) matches Some(t) && asset_creator_parses(t)
}

/// `body` is the JSON form of `v`.
pub open spec fn asset_creation_context_matches(body: Seq<char>, v: AssetCreationContext) -> bool {
    &&& json_sub_at(body, "creator"@) matches Some(t) && asset_creator_matches(t, v.creator)
    &&& json_u64_at(body, "expectedPrice"@) == v.expected_price
}

impl AssetCreationContext {
    /// Reads a [`AssetCreationContext`] out of a JSON body; fails exactly when the body
    /// does not have its shape.
    pub fn decode(body: &str) -> (r: Result<AssetCreationContext, Error>)
        ensures
            asset_creation_context_parses(body@) <==> r is Ok,
            r matches Ok(v) ==> asset_creation_context_matches(body@, v),
            r matches Err(e) ==> e is SerdeJsonError,
    {
        let creator = match json_sub_text(body, "creator") {
            Some(t) => match AssetCreator::decode(t.as_str()) {
                Ok(x) => x,
                Err(e) => {
                    return Err(e);
                },
            },
            None => {
                return Err(malformed("AssetCreationContext"));
            },
        };
        let expected_price = json_u64_field(body, "expectedPrice");
        Ok(AssetCreationContext { creator, expected_price })
    }
}

/// The name of a [`AssetTypeCategory`] in a JSON body.
pub open spec fn asset_type_category_name(v: AssetTypeCategory) -> Seq<char> {
    match v {
        AssetTypeCategory::Audio => "Audio"@,
        AssetTypeCategory::Decal => "Decal"@,
        AssetTypeCategory::Model => "Model"@,
    }
}

impl AssetTypeCategory {
    /// The value that `s` names, if any.
    pub fn from_name(s: &str) -> (r: Option<AssetTypeCategory>)
        ensures
            match r {
                Some(x) => asset_type_category_name(x) == s@,
                None => forall|x: AssetTypeCategory| asset_type_category_name(x) != s@,
            },
    {
        if str_eq(s, "Audio") {
            return Some(AssetTypeCategory::Audio);
        }
        if str_eq(s, "Decal") {
            return Some(AssetTypeCategory::Decal);
        }
        if str_eq(s, "Model") {
            return Some(AssetTypeCategory::Model);
        }
        proof {
            reveal_strlit("Audio");
            reveal_strlit("Decal");
            reveal_strlit("Model");
        }
        assert forall|x: AssetTypeCategory| asset_type_category_name(x) != s@ by {
            match x {
                AssetTypeCategory::Audio => {},
                AssetTypeCategory::Decal => {},
                AssetTypeCategory::Model => {},
            }
        }
        None
    }
}

/// A typed message; only its type is read.
#[derive(Debug, Clone)]
pub struct ProtobufAny {
    pub message_type: String,
}

/// `body` has the JSON shape of a [`ProtobufAny`].
pub open spec fn protobuf_any_parses(body: Seq<char>) -> bool {
    &&& json_str_at(body, "@type"@) is Some
}

/// `body` is the JSON form of `v`.
pub open spec fn protobuf_any_matches(body: Seq<char>, v: ProtobufAny) -> bool {
    &&& json_str_at(body, "@type"@) == Some(v.message_type@)
}

impl ProtobufAny {
    /// Reads a [`ProtobufAny`] out of a JSON body; fails exactly when the body
    /// does not have its shape.
    pub fn decode(body: &str) -> (r: Result<ProtobufAny, Error>)
        ensures
            protobuf_any_parses(body@) <==> r is Ok,
            r matches Ok(v) ==> protobuf_any_matches(body@, v),
            r matches Err(e) ==> e is SerdeJsonError,
    {
        let message_type = match json_str_field(body, "@type") {
            Some(x) => x,
            None => {
                return Err(malformed("ProtobufAny"));
            },
        };
        Ok(ProtobufAny { message_type })
    }
}

/// Why an asset operation failed.
#[derive(Debug, Clone)]
pub struct AssetErrorStatus {
    pub code: u64,
    pub message: String,
    pub details: Vec<ProtobufAny>,
}

/// `body` has the JSON shape of a [`AssetErrorStatus`].
pub open spec fn asset_error_status_parses(body: Seq<char>) -> bool {
    &&& json_u64_at(body, "code"@) is Some
    &&& json_str_at(body, "message"@) is Some
    &&& json_len_at(body, "details"@) matches Some(n) && (forall|i: usize| i < n ==> (#[trigger] json_item_at(body, "details"@, i) matches Some(t) && protobuf_any_parses(t)))
}

/// `body` is the JSON form of `v`.
pub open spec fn asset_error_status_matches(body: Seq<char>, v: AssetErrorStatus) -> bool {
    &&& json_u64_at(body, "code"@) == Some(v.code)
    &&& json_str_at(body, "message"@) == Some(v.message@)
    &&& json_len_at(body, "details"@) == Some(v.details@.len() as usize) && (forall|i: int| 0 <= i < v.details@.len() ==> (json_item_at(body, "details"@, i as usize) matches Some(t) && protobuf_any_matches(t, #[trigger] v.details@[i])))
}

impl AssetErrorStatus {
    /// Reads a [`AssetErrorStatus`] out of a JSON body; fails exactly when the body
    /// does not have its shape.
    pub fn decode(body: &str) -> (r: Result<AssetErrorStatus, Error>)
        ensures
            asset_error_status_parses(body@) <==> r is Ok,
            r matches Ok(v) ==> asset_error_status_matches(body@, v),
            r matches Err(e) ==> e is SerdeJsonError,
    {
        let code = match json_u64_field(body, "code") {
            Some(x) => x,
            None => {
                return Err(malformed("AssetErrorStatus"));
            },
        };
        let message = match json_str_field(body, "message") {
            Some(x) => x,
            None => {
                return Err(malformed("AssetErrorStatus"));
            },
        };
        let n = match json_array_len(body, "details") {
            Some(n) => n,
            None => {
                return Err(malformed("AssetErrorStatus"));
            },
        };
        let mut details: Vec<ProtobufAny> = Vec::new();
        let mut i: usize = 0;
        while i < n
            invariant
                json_len_at(body@, "details"@) == Some(n),
                i <= n,
                details@.len() == i,
                forall|k: int| 0 <= k < i ==> (json_item_at(body@, "details"@, k as usize) matches Some(t) && protobuf_any_matches(t, #[trigger] details@[k])),
                forall|k: usize| k < i ==> (#[trigger] json_item_at(body@, "details"@, k) matches Some(t) && protobuf_any_parses(t)),
            decreases n - i,
        {
            let t = match json_item_text(body, "details", i) {
                Some(t) => t,
                None => {
                    return Err(malformed("AssetErrorStatus"));
                },
            };
            let x = match ProtobufAny::decode(t.as_str()) {
                Ok(x) => x,
                Err(e) => {
                    return Err(e);
                },
            };
            details.push(x);
            i = i + 1;
        }
        Ok(AssetErrorStatus { code, message, details })
    }
}

/// A long-running asset operation.
#[derive(Debug, Clone)]
pub struct AssetOperation {
    pub path: Option<String>,
    pub metadata: Option<ProtobufAny>,
    pub done: Option<bool>,
    pub error: Option<AssetErrorStatus>,
    pub response: Option<ProtobufAny>,
}

/// `body` has the JSON shape of a [`AssetOperation`].
pub open spec fn asset_operation_parses(body: Seq<char>) -> bool {
    &&& json_sub_at(body, "metadata"@) matches Some(t) ==> protobuf_any_parses(t)
    &&& json_sub_at(body, "error"@) matches Some(t) ==> asset_error_status_parses(t)
    &&& json_sub_at(body, "response"@) matches Some(t) ==> protobuf_any_parses(t)
}

/// `body` is the JSON form of `v`.
pub open spec fn asset_operation_matches(body: Seq<char>, v: AssetOperation) -> bool {
    &&& json_str_at(body, "path"@) == opt_text(v.path)
    &&& (match json_sub_at(body, "metadata"@) { Some(t) => v.metadata matches Some(x) && protobuf_any_matches(t, x), None => v.metadata is None })
    &&& json_bool_at(body, "done"@) == v.done
    &&& (match json_sub_at(body, "error"@) { Some(t) => v.error matches Some(x) && asset_error_status_matches(t, x), None => v.error is None })
    &&& (match json_sub_at(body, "response"@) { Some(t) => v.response matches Some(x) && protobuf_any_matches(t, x), None => v.response is None })
}

impl AssetOperation {
    /// Reads a [`AssetOperation`] out of a JSON body; fails exactly when the body
    /// does not have its shape.
    pub fn decode(body: &str) -> (r: Result<AssetOperation, Error>)
        ensures
            asset_operation_parses(body@) <==> r is Ok,
            r matches Ok(v) ==> asset_operation_matches(body@, v),
            r matches Err(e) ==> e is SerdeJsonError,
    {
        let path = json_str_field(body, "path");
        let metadata = match json_sub_text(body, "metadata") {
            Some(t) => match ProtobufAny::decode(t.as_str()) {
                Ok(x) => Some(x),
                Err(e) => {
                    return Err(e);
                },
            },
            None => None,
        };
        let done = json_bool_field(body, "done");
        let error = match json_sub_text(body, "error") {
            Some(t) => match AssetErrorStatus::decode(t.as_str()) {
                Ok(x) => Some(x),
                Err(e) => {
                    return Err(e);
                },
            },
            None => None,
        };
        let response = match json_sub_text(body, "response") {
            Some(t) => match ProtobufAny::decode(t.as_str()) {
                Ok(x) => Some(x),
                Err(e) => {
                    return Err(e);
                },
            },
            None => None,
        };
        Ok(AssetOperation { path, metadata, done, error, response })
    }
}

/// The moderation state of an asset. The service writes more states than it documents, so it is kept as text.
#[derive(Debug, Clone)]
pub struct ModerationResult {
    pub moderation_state: String,
}

/// `body` has the JSON shape of a [`ModerationResult`].
pub open spec fn moderation_result_parses(body: Seq<char>) -> bool {
    &&& json_str_at(body, "moderationState"@) is Some
}

/// `body` is the JSON form of `v`.
pub open spec fn moderation_result_matches(body: Seq<char>, v: ModerationResult) -> bool {
    &&& json_str_at(body, "moderationState"@) == Some(v.moderation_state@)
}

impl ModerationResult {
    /// Reads a [`ModerationResult`] out of a JSON body; fails exactly when the body
    /// does not have its shape.
    pub fn decode(body: &str) -> (r: Result<ModerationResult, Error>)
        ensures
            moderation_result_parses(body@) <==> r is Ok,
            r matches Ok(v) ==> moderation_result_matches(body@, v),
            r matches Err(e) ==> e is SerdeJsonError,
    {
        let moderation_state = match json_str_field(body, "moderationState") {
            Some(x) => x,
            None => {
                return Err(malformed("ModerationResult"));
            },
        };
        Ok(ModerationResult { moderation_state })
    }
}

/// The asset that a finished operation produced.
#[derive(Debug, Clone)]
pub struct AssetGetOperationResponse {
    pub path: String,
    pub revision_id: String,
    pub revision_create_time: String,
    pub asset_id: String,
    pub display_name: String,
    pub description: String,
    pub asset_type: String,
    pub creation_context: AssetCreationContext,
}

/// `body` has the JSON shape of a [`AssetGetOperationResponse`].
pub open spec fn asset_get_operation_response_parses(body: Seq<char>) -> bool {
    &&& json_str_at(body, "path"@) is Some
    &&& json_str_at(body, "revisionId"@) is Some
    &&& json_str_at(body, "revisionCreateTime"@) is Some
    &&& json_str_at(body, "assetId"@) is Some
    &&& json_str_at(body, "displayName"@) is Some
    &&& json_str_at(body, "description"@) is Some
    &&& json_str_at(body, "assetType"@) is Some
    &&& json_sub_at(body, "creationContext"@) matches Some(t) && asset_creation_context_parses(t)
}

/// `body` is the JSON form of `v`.
pub open spec fn asset_get_operation_response_matches(body: Seq<char>, v: AssetGetOperationResponse) -> bool {
    &&& json_str_at(body, "path"@) == Some(v.path@)
    &&& json_str_at(body, "revisionId"@) == Some(v.revision_id@)
    &&& json_str_at(body, "revisionCreateTime"@) == Some(v.revision_create_time@)
    &&& json_str_at(body, "assetId"@) == Some(v.asset_id@)
    &&& json_str_at(body, "displayName"@) == Some(v.display_name@)
    &&& json_str_at(body, "description"@) == Some(v.description@)
    &&& json_str_at(body, "assetType"@) == Some(v.asset_type@)
    &&& json_sub_at(body, "creationContext"@) matches Some(t) && asset_creation_context_matches(t, v.creation_context)
}

impl AssetGetOperationResponse {
    /// Reads a [`AssetGetOperationResponse`] out of a JSON body; fails exactly when the body
    /// does not have its shape.
    pub fn decode(body: &str) -> (r: Result<AssetGetOperationResponse, Error>)
        ensures
            asset_get_operation_response_parses(body@) <==> r is Ok,
            r matches Ok(v) ==> asset_get_operation_response_matches(body@, v),
            r matches Err(e) ==> e is SerdeJsonError,
    {
        let path = match json_str_field(body, "path") {
            Some(x) => x,
            None => {
                return Err(malformed("AssetGetOperationResponse"));
            },
        };
        let revision_id = match json_str_field(body, "revisionId") {
            Some(x) => x,
            None => {
                return Err(malformed("AssetGetOperationResponse"));
            },
        };
        let revision_create_time = match json_str_field(body, "revisionCreateTime") {
            Some(x) => x,
            None => {
                return Err(malformed("AssetGetOperationResponse"));
            },
        };
        let asset_id = match json_str_field(body, "assetId") {
            Some(x) => x,
            None => {
                return Err(malformed("AssetGetOperationResponse"));
            },
        };
        let display_name = match json_str_field(body, "displayName") {
            Some(x) => x,
            None => {
                return Err(malformed("AssetGetOperationResponse"));
            },
        };
        let description = match json_str_field(body, "description") {
            Some(x) => x,
            None => {
                return Err(malformed("AssetGetOperationResponse"));
            },
        };
        let asset_type = match json_str_field(body, "assetType") {
            Some(x) => x,
            None => {
                return Err(malformed("AssetGetOperationResponse"));
            },
        };
        let creation_context = match json_sub_text(body, "creationContext") {
            Some(t) => match AssetCreationContext::decode(t.as_str()) {
                Ok(x) => x,
                Err(e) => {
                    return Err(e);
                },
            },
            None => {
                return Err(malformed("AssetGetOperationResponse"));
            },
        };
        Ok(AssetGetOperationResponse { path, revision_id, revision_create_time, asset_id, display_name, description, asset_type, creation_context })
    }
}

/// The state of an asset operation.
#[derive(Debug, Clone)]
pub struct AssetGetOperation {
    pub path: String,
    pub done: Option<bool>,
    pub response: Option<AssetGetOperationResponse>,
}

/// `body` has the JSON shape of a [`AssetGetOperation`].
pub open spec fn asset_get_operation_parses(body: Seq<char>) -> bool {
    &&& json_str_at(body, "path"@) is Some
    &&& json_sub_at(body, "response"@) matches Some(t) ==> asset_get_operation_response_parses(t)
}

/// `body` is the JSON form of `v`.
pub open spec fn asset_get_operation_matches(body: Seq<char>, v: AssetGetOperation) -> bool {
    &&& json_str_at(body, "path"@) == Some(v.path@)
    &&& json_bool_at(body, "done"@) == v.done
    &&& (match json_sub_at(body, "response"@) { Some(t) => v.response matches Some(x) && asset_get_operation_response_matches(t, x), None => v.response is None })
}

impl AssetGetOperation {
    /// Reads a [`AssetGetOperation`] out of a JSON body; fails exactly when the body
    /// does not have its shape.
    pub fn decode(body: &str) -> (r: Result<AssetGetOperation, Error>)
        ensures
            asset_get_operation_parses(body@) <==> r is Ok,
            r matches Ok(v) ==> asset_get_operation_matches(body@, v),
            r matches Err(e) ==> e is SerdeJsonError,
    {
        let path = match json_str_field(body, "path") {
            Some(x) => x,
            None => {
                return Err(malformed("AssetGetOperation"));
            },
        };
        let done = json_bool_field(body, "done");
        let response = match json_sub_text(body, "response") {
            Some(t) => match AssetGetOperationResponse::decode(t.as_str()) {
                Ok(x) => Some(x),
                Err(e) => {
                    return Err(e);
                },
            },
            None => None,
        };
        Ok(AssetGetOperation { path, done, response })
    }
}

/// An asset.
#[derive(Debug, Clone)]
pub struct AssetInfo {
    pub asset_type: AssetTypeCategory,
    pub asset_id: String,
    pub creation_context: AssetCreationContext,
    pub description: String,
    pub display_name: String,
    pub path: String,
    pub revision_id: String,
    pub revision_create_time: String,
    pub moderation_result: ModerationResult,
    pub state: String,
}

/// `body` has the JSON shape of a [`AssetInfo`].
pub open spec fn asset_info_parses(body: Seq<char>) -> bool {
    &&& json_str_at(body, "assetType"@) matches Some(s) && exists|x: AssetTypeCategory| #[trigger] asset_type_category_name(x) == s
    &&& json_str_at(body, "assetId"@) is Some
    &&& json_sub_at(body, "creationContext"@) matches Some(t) && asset_creation_context_parses(t)
    &&& json_str_at(body, "description"@) is Some
    &&& json_str_at(body, "displayName"@) is Some
    &&& json_str_at(body, "path"@) is Some
    &&& json_str_at(body, "revisionId"@) is Some
    &&& json_str_at(body, "revisionCreateTime"@) is Some
    &&& json_sub_at(body, "moderationResult"@) matches Some(t) && moderation_result_parses(t)
    &&& json_str_at(body, "state"@) is Some
}

/// `body` is the JSON form of `v`.
pub open spec fn asset_info_matches(body: Seq<char>, v: AssetInfo) -> bool {
    &&& json_str_at(body, "assetType"@) == Some(asset_type_category_name(v.asset_type))
    &&& json_str_at(body, "assetId"@) == Some(v.asset_id@)
    &&& json_sub_at(body, "creationContext"@) matches Some(t) && asset_creation_context_matches(t, v.creation_context)
    &&& json_str_at(body, "description"@) == Some(v.description@)
    &&& json_str_at(body, "displayName"@) == Some(v.display_name@)
    &&& json_str_at(body, "path"@) == Some(v.path@)
    &&& json_str_at(body, "revisionId"@) == Some(v.revision_id@)
    &&& json_str_at(body, "revisionCreateTime"@) == Some(v.revision_create_time@)
    &&& json_sub_at(body, "moderationResult"@) matches Some(t) && moderation_result_matches(t, v.moderation_result)
    &&& json_str_at(body, "state"@) == Some(v.state@)
}

impl AssetInfo {
    /// Reads a [`AssetInfo`] out of a JSON body; fails exactly when the body
    /// does not have its shape.
    pub fn decode(body: &str) -> (r: Result<AssetInfo, Error>)
        ensures
            asset_info_parses(body@) <==> r is Ok,
            r matches Ok(v) ==> asset_info_matches(body@, v),
            r matches Err(e) ==> e is SerdeJsonError,
    {
        let asset_type = match json_str_field(body, "assetType") {
            Some(s) => match AssetTypeCategory::from_name(s.as_str()) {
                Some(x) => x,
                None => {
                    return Err(malformed("AssetInfo"));
                },
            },
            None => {
                return Err(malformed("AssetInfo"));
            },
        };
        let asset_id = match json_str_field(body, "assetId") {
            Some(x) => x,
            None => {
                return Err(malformed("AssetInfo"));
            },
        };
        let creation_context = match json_sub_text(body, "creationContext") {
            Some(t) => match AssetCreationContext::decode(t.as_str()) {
                Ok(x) => x,
                Err(e) => {
                    return Err(e);
                },
            },
            None => {
                return Err(malformed("AssetInfo"));
            },
        };
        let description = match json_str_field(body, "description") {
            Some(x) => x,
            None => {
                return Err(malformed("AssetInfo"));
            },
        };
        let display_name = match json_str_field(body, "displayName") {
            Some(x) => x,
            None => {
                return Err(malformed("AssetInfo"));
            },
        };
        let path = match json_str_field(body, "path") {
            Some(x) => x,
            None => {
                return Err(malformed("AssetInfo"));
            },
        };
        let revision_id = match json_str_field(body, "revisionId") {
            Some(x) => x,
            None => {
                return Err(malformed("AssetInfo"));
            },
        };
        let revision_create_time = match json_str_field(body, "revisionCreateTime") {
            Some(x) => x,
            None => {
                return Err(malformed("AssetInfo"));
            },
        };
        let moderation_result = match json_sub_text(body, "moderationResult") {
            Some(t) => match ModerationResult::decode(t.as_str()) {
                Ok(x) => x,
                Err(e) => {
                    return Err(e);
                },
            },
            None => {
                return Err(malformed("AssetInfo"));
            },
        };
        let state = match json_str_field(body, "state") {
            Some(x) => x,
            None => {
                return Err(malformed("AssetInfo"));
            },
        };
        Ok(AssetInfo { asset_type, asset_id, creation_context, description, display_name, path, revision_id, revision_create_time, moderation_result, state })
    }
}

/// An asset as an earlier revision of the service returned it.
#[derive(Debug, Clone)]
pub struct Asset {
    pub asset_type: String,
    pub asset_id: u64,
    pub creation_context: AssetCreationContext,
    pub description: String,
    pub display_name: String,
    pub path: String,
    pub revision_id: String,
    pub revision_create_time: String,
}

/// `body` has the JSON shape of a [`Asset`].
pub open spec fn asset_parses(body: Seq<char>) -> bool {
    &&& json_str_at(body, "assetType"@) is Some
    &&& json_u64_at(body, "assetId"@) is Some
    &&& json_sub_at(body, "creationContext"@) matches Some(t) && asset_creation_context_parses(t)
    &&& json_str_at(body, "description"@) is Some
    &&& json_str_at(body, "displayName"@) is Some
    &&& json_str_at(body, "path"@) is Some
    &&& json_str_at(body, "revisionId"@) is Some
    &&& json_str_at(body, "revisionCreateTime"@) is Some
}

/// `body` is the JSON form of `v`.
pub open spec fn asset_matches(body: Seq<char>, v: Asset) -> bool {
    &&& json_str_at(body, "assetType"@) == Some(v.asset_type@)
    &&& json_u64_at(body, "assetId"@) == Some(v.asset_id)
    &&& json_sub_at(body, "creationContext"@) matches Some(t) && asset_creation_context_matches(t, v.creation_context)
    &&& json_str_at(body, "description"@) == Some(v.description@)
    &&& json_str_at(body, "displayName"@) == Some(v.display_name@)
    &&& json_str_at(body, "path"@) == Some(v.path@)
    &&& json_str_at(body, "revisionId"@) == Some(v.revision_id@)
    &&& json_str_at(body, "revisionCreateTime"@) == Some(v.revision_create_time@)
}

impl Asset {
    /// Reads a [`Asset`] out of a JSON body; fails exactly when the body
    /// does not have its shape.
    pub fn decode(body: &str) -> (r: Result<Asset, Error>)
        ensures
            asset_parses(body@) <==> r is Ok,
            r matches Ok(v) ==> asset_matches(body@, v),
            r matches Err(e) ==> e is SerdeJsonError,
    {
        let asset_type = match json_str_field(body, "assetType") {
            Some(x) => x,
            None => {
                return Err(malformed("Asset"));
            },
        };
        let asset_id = match json_u64_field(body, "assetId") {
            Some(x) => x,
            None => {
                return Err(malformed("Asset"));
            },
        };
        let creation_context = match json_sub_text(body, "creationContext") {
            Some(t) => match AssetCreationContext::decode(t.as_str()) {
                Ok(x) => x,
                Err(e) => {
                    return Err(e);
                },
            },
            None => {
                return Err(malformed("Asset"));
            },
        };
        let description = match json_str_field(body, "description") {
            Some(x) => x,
            None => {
                return Err(malformed("Asset"));
            },
        };
        let display_name = match json_str_field(body, "displayName") {
            Some(x) => x,
            None => {
                return Err(malformed("Asset"));
            },
        };
        let path = match json_str_field(body, "path") {
            Some(x) => x,
            None => {
                return Err(malformed("Asset"));
            },
        };
        let revision_id = match json_str_field(body, "revisionId") {
            Some(x) => x,
            None => {
                return Err(malformed("Asset"));
            },
        };
        let revision_create_time = match json_str_field(body, "revisionCreateTime") {
            Some(x) => x,
            None => {
                return Err(malformed("Asset"));
            },
        };
        Ok(Asset { asset_type, asset_id, creation_context, description, display_name, path, revision_id, revision_create_time })
    }
}

} // verus!
