use rbxcloud::error::Error;
use rbxcloud::http::{FileSource, HttpMethod, RequestBody};
use rbxcloud::types::{u64_ids_to_roblox_ids, PageSize, PlaceId, RobloxUserId, UniverseId};
use rbxcloud::v1::assets::{
    create_context_from_creator_type, infer_asset_type_from_filepath, AssetCreation, AssetCreator,
    AssetType, AssetTypeCategory, CreatorType,
};
use rbxcloud::v1::experience::{handle_publish_response, PublishVersionType};
use rbxcloud::v1::messaging::handle_message_response;
use rbxcloud::v1::{CreateAsset, CreateAssetWithContents, RbxCloud, UpdateAsset};

#[test]
fn extension_tables() {
    let table = [
        ("mp3", AssetType::AudioMp3, "audio/mpeg", "Audio"),
        ("ogg", AssetType::AudioOgg, "audio/ogg", "Audio"),
        ("flac", AssetType::AudioFlac, "audio/flac", "Audio"),
        ("wav", AssetType::AudioWav, "audio/wav", "Audio"),
        ("png", AssetType::DecalPng, "image/png", "Decal"),
        ("jpg", AssetType::DecalJpeg, "image/jpeg", "Decal"),
        ("jpeg", AssetType::DecalJpeg, "image/jpeg", "Decal"),
        ("bmp", AssetType::DecalBmp, "image/bmp", "Decal"),
        ("tga", AssetType::DecalTga, "image/tga", "Decal"),
        ("fbx", AssetType::ModelFbx, "model/fbx", "Model"),
    ];
    for (ext, t, mime, cat) in table {
        let got = AssetType::try_from_extension(ext).unwrap();
        assert_eq!(got, t);
        assert_eq!(got.content_type(), mime);
        assert_eq!(got.asset_type(), cat);
        assert_eq!(AssetType::try_from_extension(&ext.to_uppercase()).unwrap(), t);
    }
    assert_eq!(AssetType::DecalPng.category(), AssetTypeCategory::Decal);
    assert!(matches!(AssetType::try_from_extension("gif"), Err(Error::InferAssetTypeError(_))));
}

#[test]
fn infer_png_and_missing_extension() {
    let t = infer_asset_type_from_filepath(&"images/logo.png".to_string()).unwrap();
    assert_eq!(t.content_type(), "image/png");
    assert_eq!(t.asset_type(), "Decal");
    match infer_asset_type_from_filepath(&"images/logo".to_string()) {
        Err(Error::InferAssetTypeError(s)) => assert_eq!(s, "images/logo"),
        other => panic!("unexpected {other:?}"),
    }
}

fn creation(t: AssetType) -> AssetCreation {
    AssetCreation {
        asset_type: t,
        display_name: "Logo".to_string(),
        description: "A \"logo\"".to_string(),
        creation_context: create_context_from_creator_type(CreatorType::User, 99, None),
    }
}

#[test]
fn creator_context() {
    let c = create_context_from_creator_type(CreatorType::Group, 12, Some(30));
    assert_eq!(c.expected_price, Some(30));
    assert!(matches!(c.creator, AssetCreator::Group(ref g) if g.group_id == "12"));
    let u = create_context_from_creator_type(CreatorType::User, 7, None);
    assert_eq!(u.expected_price, Some(0));
    assert!(matches!(u.creator, AssetCreator::User(ref g) if g.user_id == "7"));
}

#[test]
fn create_asset_multipart() {
    let assets = RbxCloud::new("k").assets();
    let r = assets
        .create(&CreateAsset { asset: creation(AssetType::DecalPng), filepath: "dir/logo.png".to_string() })
        .unwrap();
    assert_eq!(r.method, HttpMethod::Post);
    assert_eq!(r.url, "https://apis.roblox.com/assets/v1/assets");
    match r.body {
        RequestBody::Multipart { request, file } => {
            assert_eq!(
                request,
                "{\"assetType\":\"Decal\",\"displayName\":\"Logo\",\"description\":\"A \\\"logo\\\"\",\"creationContext\":{\"creator\":{\"userId\":\"99\"},\"expectedPrice\":0}}"
            );
            assert_eq!(file.field, "fileContent");
            assert_eq!(file.file_name, "logo.png");
            assert_eq!(file.mime, "image/png");
            assert!(matches!(file.source, FileSource::Path(ref p) if p == "dir/logo.png"));
        }
        _ => panic!("expected a multipart body"),
    }
    assert!(matches!(
        assets.create(&CreateAsset { asset: creation(AssetType::DecalPng), filepath: "/".to_string() }),
        Err(Error::FileLoadError(_))
    ));
}

#[test]
fn create_with_contents_and_update() {
    let assets = RbxCloud::new("k").assets();
    let bytes = [1u8, 2, 3];
    let r = assets.create_with_contents(&CreateAssetWithContents { asset: creation(AssetType::AudioOgg), contents: &bytes });
    match r.body {
        RequestBody::Multipart { file, .. } => {
            assert_eq!(file.file_name, "Logo");
            assert_eq!(file.mime, "audio/ogg");
            assert!(matches!(file.source, FileSource::Bytes(ref b) if b == &vec![1u8, 2, 3]));
        }
        _ => panic!("expected a multipart body"),
    }
    let u = assets
        .update(&UpdateAsset { asset_id: 1234, asset_type: AssetType::ModelFbx, filepath: "m.fbx".to_string() })
        .unwrap();
    assert_eq!(u.method, HttpMethod::Patch);
    assert_eq!(u.url, "https://apis.roblox.com/assets/v1/assets/1234");
    match u.body {
        RequestBody::Multipart { request, file } => {
            assert_eq!(request, "{\"assetId\":1234}");
            assert_eq!(file.mime, "model/fbx");
        }
        _ => panic!("expected a multipart body"),
    }
}

#[test]
fn publish_request_and_response() {
    let e = RbxCloud::new("k").experience(UniverseId(10), PlaceId(20));
    let r = e.publish("place.rbxl", PublishVersionType::Published);
    assert_eq!(r.url, "https://apis.roblox.com/universes/v1/10/places/20/versions?versionType=Published");
    assert!(matches!(r.body, RequestBody::File(ref f) if f == "place.rbxl"));
    assert_eq!(r.headers[1].1, "application/octet-stream");
    let ok = handle_publish_response(200, "{\"versionNumber\":17}").unwrap();
    assert_eq!(ok.version_number, 17);
    assert!(matches!(handle_publish_response(200, "{}"), Err(Error::SerdeJsonError(_))));
    assert!(matches!(handle_publish_response(403, ""), Err(Error::HttpStatusError { code: 403, ref msg }) if msg == "publish not allowed on place"));
    assert!(matches!(handle_publish_response(409, ""), Err(Error::HttpStatusError { code: 409, ref msg }) if msg == "place not part of the universe"));
    assert!(matches!(handle_publish_response(418, ""), Err(Error::HttpStatusError { code: 418, ref msg }) if msg == "I'm a teapot"));
}

#[test]
fn messaging_request_and_status() {
    let m = RbxCloud::new("k").messaging(UniverseId(9876543210), "MyTopic");
    let r = m.publish("Hello world");
    assert_eq!(r.url, "https://apis.roblox.com/messaging-service/v1/universes/9876543210/topics/MyTopic");
    assert!(matches!(r.body, RequestBody::Text(ref b) if b == "{\"message\":\"Hello world\"}"));
    assert!(handle_message_response(200).is_ok());
    assert!(matches!(handle_message_response(401), Err(Error::HttpStatusError { code: 401, ref msg }) if msg == "api key not valid for operation"));
    assert!(matches!(handle_message_response(404), Err(Error::HttpStatusError { code: 404, ref msg }) if msg == "Not Found"));
}

#[test]
fn identifiers_render_as_decimal() {
    assert_eq!(UniverseId(0).to_string(), "0");
    assert_eq!(PlaceId(18446744073709551615).to_string(), "18446744073709551615");
    assert_eq!(PageSize::from(25).to_string(), "25");
    assert_eq!(Error::FileLoadError("x".to_string()).to_string(), "failed to read file: x");
    assert_eq!(Error::InferAssetTypeError("y".to_string()).to_string(), "failed to infer asset type: y");
}

#[test]
fn transport_errors_read_as_their_text() {
    assert_eq!(Error::ReqwestError("timed out".to_string()).to_string(), "timed out");
    assert_eq!(Error::IOError("no such file".to_string()).to_string(), "no such file");
    assert_eq!(Error::ParseFloatError("invalid float literal".to_string()).to_string(), "invalid float literal");
    assert_eq!(Error::SerdeJsonError("bad".to_string()).to_string(), "bad");
    assert_eq!(
        Error::HttpStatusError { code: 500, msg: "internal server error".to_string() }.to_string(),
        "http 500: internal server error"
    );
}

#[test]
fn user_ids_keep_order() {
    assert_eq!(u64_ids_to_roblox_ids(None), None);
    assert_eq!(u64_ids_to_roblox_ids(Some(vec![3, 1, 2])), Some(vec![RobloxUserId(3), RobloxUserId(1), RobloxUserId(2)]));
}
