//! The inventory of a user.
use crate::http::{get_request, key_headers, HttpMethod, Request};
use crate::text::{concat, decimal, opt_num_pair, opt_pair, pairs, push_opt, push_opt_num};
use crate::types::RobloxUserId;
use crate::error::{malformed, Error};
use crate::json::{
    json_array_len, json_item_at, json_item_text, json_len_at, json_str_at, json_str_field,
    json_sub_at, json_sub_text, json_u64_at, json_u64_field,
};
use crate::text::{opt_text, str_eq};
use vstd::prelude::*;
use vstd::string::*;

verus! {

/// Parameters of listing the inventory items of a user.
pub struct ListInventoryItemsParams {
    pub api_key: String,
    pub user_id: RobloxUserId,
    pub max_page_size: Option<u32>,
    pub page_token: Option<String>,
    pub filter: Option<String>,
}

/// The URL of the inventory of a user.
pub open spec fn inventory_url(user_id: RobloxUserId) -> Seq<char> {
    "https://apis.roblox.com/cloud/v2/users/"@ + decimal(user_id.0 as nat) + "/inventory-items"@
}

/// The request that lists the inventory items of a user.
pub fn list_inventory_items(params: &ListInventoryItemsParams) -> (r: Request)
    ensures
        r.method == HttpMethod::Get,
        r.url@ == inventory_url(params.user_id),
        pairs(r.headers@) == key_headers(params.api_key@),
        pairs(r.query@) == opt_num_pair("maxPageSize"@, params.max_page_size) + opt_pair(
            "pageToken"@,
            params.page_token,
        ) + opt_pair("filter"@, params.filter),
        r.body is Empty,
{
    let id = params.user_id.to_string();
    let mut url = concat("https://apis.roblox.com/cloud/v2/users/", id.as_str());
    url.append("/inventory-items");
    let mut q: Vec<(String, String)> = Vec::new();
    push_opt_num(&mut q, "maxPageSize", params.max_page_size);
    push_opt(&mut q, "pageToken", &params.page_token);
    push_opt(&mut q, "filter", &params.filter);
    assert(pairs(q@) =~= opt_num_pair("maxPageSize"@, params.max_page_size) + opt_pair("pageToken"@, params.page_token) + opt_pair("filter"@, params.filter));
    get_request(&params.api_key, url, q)
}

/// The state of a collectible instance.
#[derive(Debug, Clone, Copy, PartialEq, Eq, Structural)]
pub enum InventoryItemInstanceState {
    CollectibleItemInstanceStateUnspecified,
    Available,
    Hold,
}

/// The name of a [`InventoryItemInstanceState`] in a JSON body.
pub open spec fn inventory_item_instance_state_name(v: InventoryItemInstanceState) -> Seq<char> {
    match v {
        InventoryItemInstanceState::CollectibleItemInstanceStateUnspecified => "COLLECTIBLE_ITEM_INSTANCE_STATE_UNSPECIFIED"@,
        InventoryItemInstanceState::Available => "AVAILABLE"@,
        InventoryItemInstanceState::Hold => "HOLD"@,
    }
}

impl InventoryItemInstanceState {
    /// The value that `s` names, if any.
    pub fn from_name(s: &str) -> (r: Option<InventoryItemInstanceState>)
        ensures
            match r {
                Some(x) => inventory_item_instance_state_name(x) == s@,
                None => forall|x: InventoryItemInstanceState| inventory_item_instance_state_name(x) != s@,
            },
    {
        if str_eq(s, "COLLECTIBLE_ITEM_INSTANCE_STATE_UNSPECIFIED") {
            return Some(InventoryItemInstanceState::CollectibleItemInstanceStateUnspecified);
        }
        if str_eq(s, "AVAILABLE") {
            return Some(InventoryItemInstanceState::Available);
        }
        if str_eq(s, "HOLD") {
            return Some(InventoryItemInstanceState::Hold);
        }
        proof {
            reveal_strlit("COLLECTIBLE_ITEM_INSTANCE_STATE_UNSPECIFIED");
            reveal_strlit("AVAILABLE");
            reveal_strlit("HOLD");
        }
        assert forall|x: InventoryItemInstanceState| inventory_item_instance_state_name(x) != s@ by {
            match x {
                InventoryItemInstanceState::CollectibleItemInstanceStateUnspecified => {},
                InventoryItemInstanceState::Available => {},
                InventoryItemInstanceState::Hold => {},
            }
        }
        None
    }
}

/// The type of an asset in an inventory.
#[derive(Debug, Clone, Copy, PartialEq, Eq, Structural)]
pub enum InventoryItemAssetType {
    ClassicTshirt,
    Audio,
    Hat,
    Model,
    ClassicShirt,
    ClassicPants,
    Decal,
    ClassicHead,
    Face,
    Gear,
    Animation,
    Torso,
    RightArm,
    LeftArm,
    LeftLeg,
    RightLeg,
    Package,
    Plugin,
    MeshPart,
    HairAccessory,
    FaceAccessory,
    NeckAccessory,
    ShoulderAccessory,
    FrontAccessory,
    BackAccessory,
    WaistAccessory,
    ClimbAnimation,
    DeathAnimation,
    FallAnimation,
    IdleAnimation,
    JumpAnimation,
    RunAnimation,
    SwimAnimation,
    WalkAnimation,
    PoseAnimation,
    EmoteAnimation,
    Video,
    TshirtAccessory,
    ShirtAccessory,
    PantsAccessory,
    JacketAccessory,
    SweaterAccessory,
    ShortsAccessory,
    LeftShoeAccessory,
    RightShoeAccessory,
    DressSkirtAccessory,
    EyebrowAccessory,
    EyelashAccessory,
    MoodAnimation,
    DynamicHead,
    CreatedPlace,
    PurchasedPlace,
}

/// The name of a [`InventoryItemAssetType`] in a JSON body.
pub open spec fn inventory_item_asset_type_name(v: InventoryItemAssetType) -> Seq<char> {
    match v {
        InventoryItemAssetType::ClassicTshirt => "CLASSIC_TSHIRT"@,
        InventoryItemAssetType::Audio => "AUDIO"@,
        InventoryItemAssetType::Hat => "HAT"@,
        InventoryItemAssetType::Model => "MODEL"@,
        InventoryItemAssetType::ClassicShirt => "CLASSIC_SHIRT"@,
        InventoryItemAssetType::ClassicPants => "CLASSIC_PANTS"@,
        InventoryItemAssetType::Decal => "DECAL"@,
        InventoryItemAssetType::ClassicHead => "CLASSIC_HEAD"@,
        InventoryItemAssetType::Face => "FACE"@,
        InventoryItemAssetType::Gear => "GEAR"@,
        InventoryItemAssetType::Animation => "ANIMATION"@,
        InventoryItemAssetType::Torso => "TORSO"@,
        InventoryItemAssetType::RightArm => "RIGHT_ARM"@,
        InventoryItemAssetType::LeftArm => "LEFT_ARM"@,
        InventoryItemAssetType::LeftLeg => "LEFT_LEG"@,
        InventoryItemAssetType::RightLeg => "RIGHT_LEG"@,
        InventoryItemAssetType::Package => "PACKAGE"@,
        InventoryItemAssetType::Plugin => "PLUGIN"@,
        InventoryItemAssetType::MeshPart => "MESH_PART"@,
        InventoryItemAssetType::HairAccessory => "HAIR_ACCESSORY"@,
        InventoryItemAssetType::FaceAccessory => "FACE_ACCESSORY"@,
        InventoryItemAssetType::NeckAccessory => "NECK_ACCESSORY"@,
        InventoryItemAssetType::ShoulderAccessory => "SHOULDER_ACCESSORY"@,
        InventoryItemAssetType::FrontAccessory => "FRONT_ACCESSORY"@,
        InventoryItemAssetType::BackAccessory => "BACK_ACCESSORY"@,
        InventoryItemAssetType::WaistAccessory => "WAIST_ACCESSORY"@,
        InventoryItemAssetType::ClimbAnimation => "CLIMB_ANIMATION"@,
        InventoryItemAssetType::DeathAnimation => "DEATH_ANIMATION"@,
        InventoryItemAssetType::FallAnimation => "FALL_ANIMATION"@,
        InventoryItemAssetType::IdleAnimation => "IDLE_ANIMATION"@,
        InventoryItemAssetType::JumpAnimation => "JUMP_ANIMATION"@,
        InventoryItemAssetType::RunAnimation => "RUN_ANIMATION"@,
        InventoryItemAssetType::SwimAnimation => "SWIM_ANIMATION"@,
        InventoryItemAssetType::WalkAnimation => "WALK_ANIMATION"@,
        InventoryItemAssetType::PoseAnimation => "POSE_ANIMATION"@,
        InventoryItemAssetType::EmoteAnimation => "EMOTE_ANIMATION"@,
        InventoryItemAssetType::Video => "VIDEO"@,
        InventoryItemAssetType::TshirtAccessory => "TSHIRT_ACCESSORY"@,
        InventoryItemAssetType::ShirtAccessory => "SHIRT_ACCESSORY"@,
        InventoryItemAssetType::PantsAccessory => "PANTS_ACCESSORY"@,
        InventoryItemAssetType::JacketAccessory => "JACKET_ACCESSORY"@,
        InventoryItemAssetType::SweaterAccessory => "SWEATER_ACCESSORY"@,
        InventoryItemAssetType::ShortsAccessory => "SHORTS_ACCESSORY"@,
        InventoryItemAssetType::LeftShoeAccessory => "LEFT_SHOE_ACCESSORY"@,
        InventoryItemAssetType::RightShoeAccessory => "RIGHT_SHOE_ACCESSORY"@,
        InventoryItemAssetType::DressSkirtAccessory => "DRESS_SKIRT_ACCESSORY"@,
        InventoryItemAssetType::EyebrowAccessory => "EYEBROW_ACCESSORY"@,
        InventoryItemAssetType::EyelashAccessory => "EYELASH_ACCESSORY"@,
        InventoryItemAssetType::MoodAnimation => "MOOD_ANIMATION"@,
        InventoryItemAssetType::DynamicHead => "DYNAMIC_HEAD"@,
        InventoryItemAssetType::CreatedPlace => "CREATED_PLACE"@,
        InventoryItemAssetType::PurchasedPlace => "PURCHASED_PLACE"@,
    }
}

impl InventoryItemAssetType {
    /// The value that `s` names, if any.
    pub fn from_name(s: &str) -> (r: Option<InventoryItemAssetType>)
        ensures
            match r {
                Some(x) => inventory_item_asset_type_name(x) == s@,
                None => forall|x: InventoryItemAssetType| inventory_item_asset_type_name(x) != s@,
            },
    {
        if str_eq(s, "CLASSIC_TSHIRT") {
            return Some(InventoryItemAssetType::ClassicTshirt);
        }
        if str_eq(s, "AUDIO") {
            return Some(InventoryItemAssetType::Audio);
        }
        if str_eq(s, "HAT") {
            return Some(InventoryItemAssetType::Hat);
        }
        if str_eq(s, "MODEL") {
            return Some(InventoryItemAssetType::Model);
        }
        if str_eq(s, "CLASSIC_SHIRT") {
            return Some(InventoryItemAssetType::ClassicShirt);
        }
        if str_eq(s, "CLASSIC_PANTS") {
            return Some(InventoryItemAssetType::ClassicPants);
        }
        if str_eq(s, "DECAL") {
            return Some(InventoryItemAssetType::Decal);
        }
        if str_eq(s, "CLASSIC_HEAD") {
            return Some(InventoryItemAssetType::ClassicHead);
        }
        if str_eq(s, "FACE") {
            return Some(InventoryItemAssetType::Face);
        }
        if str_eq(s, "GEAR") {
            return Some(InventoryItemAssetType::Gear);
        }
        if str_eq(s, "ANIMATION") {
            return Some(InventoryItemAssetType::Animation);
        }
        if str_eq(s, "TORSO") {
            return Some(InventoryItemAssetType::Torso);
        }
        if str_eq(s, "RIGHT_ARM") {
            return Some(InventoryItemAssetType::RightArm);
        }
        if str_eq(s, "LEFT_ARM") {
            return Some(InventoryItemAssetType::LeftArm);
        }
        if str_eq(s, "LEFT_LEG") {
            return Some(InventoryItemAssetType::LeftLeg);
        }
        if str_eq(s, "RIGHT_LEG") {
            return Some(InventoryItemAssetType::RightLeg);
        }
        if str_eq(s, "PACKAGE") {
            return Some(InventoryItemAssetType::Package);
        }
        if str_eq(s, "PLUGIN") {
            return Some(InventoryItemAssetType::Plugin);
        }
        if str_eq(s, "MESH_PART") {
            return Some(InventoryItemAssetType::MeshPart);
        }
        if str_eq(s, "HAIR_ACCESSORY") {
            return Some(InventoryItemAssetType::HairAccessory);
        }
        if str_eq(s, "FACE_ACCESSORY") {
            return Some(InventoryItemAssetType::FaceAccessory);
        }
        if str_eq(s, "NECK_ACCESSORY") {
            return Some(InventoryItemAssetType::NeckAccessory);
        }
        if str_eq(s, "SHOULDER_ACCESSORY") {
            return Some(InventoryItemAssetType::ShoulderAccessory);
        }
        if str_eq(s, "FRONT_ACCESSORY") {
            return Some(InventoryItemAssetType::FrontAccessory);
        }
        if str_eq(s, "BACK_ACCESSORY") {
            return Some(InventoryItemAssetType::BackAccessory);
        }
        if str_eq(s, "WAIST_ACCESSORY") {
            return Some(InventoryItemAssetType::WaistAccessory);
        }
        if str_eq(s, "CLIMB_ANIMATION") {
            return Some(InventoryItemAssetType::ClimbAnimation);
        }
        if str_eq(s, "DEATH_ANIMATION") {
            return Some(InventoryItemAssetType::DeathAnimation);
        }
        if str_eq(s, "FALL_ANIMATION") {
            return Some(InventoryItemAssetType::FallAnimation);
        }
        if str_eq(s, "IDLE_ANIMATION") {
            return Some(InventoryItemAssetType::IdleAnimation);
        }
        if str_eq(s, "JUMP_ANIMATION") {
            return Some(InventoryItemAssetType::JumpAnimation);
        }
        if str_eq(s, "RUN_ANIMATION") {
            return Some(InventoryItemAssetType::RunAnimation);
        }
        if str_eq(s, "SWIM_ANIMATION") {
            return Some(InventoryItemAssetType::SwimAnimation);
        }
        if str_eq(s, "WALK_ANIMATION") {
            return Some(InventoryItemAssetType::WalkAnimation);
        }
        if str_eq(s, "POSE_ANIMATION") {
            return Some(InventoryItemAssetType::PoseAnimation);
        }
        if str_eq(s, "EMOTE_ANIMATION") {
            return Some(InventoryItemAssetType::EmoteAnimation);
        }
        if str_eq(s, "VIDEO") {
            return Some(InventoryItemAssetType::Video);
        }
        if str_eq(s, "TSHIRT_ACCESSORY") {
            return Some(InventoryItemAssetType::TshirtAccessory);
        }
        if str_eq(s, "SHIRT_ACCESSORY") {
            return Some(InventoryItemAssetType::ShirtAccessory);
        }
        if str_eq(s, "PANTS_ACCESSORY") {
            return Some(InventoryItemAssetType::PantsAccessory);
        }
        if str_eq(s, "JACKET_ACCESSORY") {
            return Some(InventoryItemAssetType::JacketAccessory);
        }
        if str_eq(s, "SWEATER_ACCESSORY") {
            return Some(InventoryItemAssetType::SweaterAccessory);
        }
        if str_eq(s, "SHORTS_ACCESSORY") {
            return Some(InventoryItemAssetType::ShortsAccessory);
        }
        if str_eq(s, "LEFT_SHOE_ACCESSORY") {
            return Some(InventoryItemAssetType::LeftShoeAccessory);
        }
        if str_eq(s, "RIGHT_SHOE_ACCESSORY") {
            return Some(InventoryItemAssetType::RightShoeAccessory);
        }
        if str_eq(s, "DRESS_SKIRT_ACCESSORY") {
            return Some(InventoryItemAssetType::DressSkirtAccessory);
        }
        if str_eq(s, "EYEBROW_ACCESSORY") {
            return Some(InventoryItemAssetType::EyebrowAccessory);
        }
        if str_eq(s, "EYELASH_ACCESSORY") {
            return Some(InventoryItemAssetType::EyelashAccessory);
        }
        if str_eq(s, "MOOD_ANIMATION") {
            return Some(InventoryItemAssetType::MoodAnimation);
        }
        if str_eq(s, "DYNAMIC_HEAD") {
            return Some(InventoryItemAssetType::DynamicHead);
        }
        if str_eq(s, "CREATED_PLACE") {
            return Some(InventoryItemAssetType::CreatedPlace);
        }
        if str_eq(s, "PURCHASED_PLACE") {
            return Some(InventoryItemAssetType::PurchasedPlace);
        }
        proof {
            reveal_strlit("CLASSIC_TSHIRT");
            reveal_strlit("AUDIO");
            reveal_strlit("HAT");
            reveal_strlit("MODEL");
            reveal_strlit("CLASSIC_SHIRT");
            reveal_strlit("CLASSIC_PANTS");
            reveal_strlit("DECAL");
            reveal_strlit("CLASSIC_HEAD");
            reveal_strlit("FACE");
            reveal_strlit("GEAR");
            reveal_strlit("ANIMATION");
            reveal_strlit("TORSO");
            reveal_strlit("RIGHT_ARM");
            reveal_strlit("LEFT_ARM");
            reveal_strlit("LEFT_LEG");
            reveal_strlit("RIGHT_LEG");
            reveal_strlit("PACKAGE");
            reveal_strlit("PLUGIN");
            reveal_strlit("MESH_PART");
            reveal_strlit("HAIR_ACCESSORY");
            reveal_strlit("FACE_ACCESSORY");
            reveal_strlit("NECK_ACCESSORY");
            reveal_strlit("SHOULDER_ACCESSORY");
            reveal_strlit("FRONT_ACCESSORY");
            reveal_strlit("BACK_ACCESSORY");
            reveal_strlit("WAIST_ACCESSORY");
            reveal_strlit("CLIMB_ANIMATION");
            reveal_strlit("DEATH_ANIMATION");
            reveal_strlit("FALL_ANIMATION");
            reveal_strlit("IDLE_ANIMATION");
            reveal_strlit("JUMP_ANIMATION");
            reveal_strlit("RUN_ANIMATION");
            reveal_strlit("SWIM_ANIMATION");
            reveal_strlit("WALK_ANIMATION");
            reveal_strlit("POSE_ANIMATION");
            reveal_strlit("EMOTE_ANIMATION");
            reveal_strlit("VIDEO");
            reveal_strlit("TSHIRT_ACCESSORY");
            reveal_strlit("SHIRT_ACCESSORY");
            reveal_strlit("PANTS_ACCESSORY");
            reveal_strlit("JACKET_ACCESSORY");
            reveal_strlit("SWEATER_ACCESSORY");
            reveal_strlit("SHORTS_ACCESSORY");
            reveal_strlit("LEFT_SHOE_ACCESSORY");
            reveal_strlit("RIGHT_SHOE_ACCESSORY");
            reveal_strlit("DRESS_SKIRT_ACCESSORY");
            reveal_strlit("EYEBROW_ACCESSORY");
            reveal_strlit("EYELASH_ACCESSORY");
            reveal_strlit("MOOD_ANIMATION");
            reveal_strlit("DYNAMIC_HEAD");
            reveal_strlit("CREATED_PLACE");
            reveal_strlit("PURCHASED_PLACE");
        }
        assert forall|x: InventoryItemAssetType| inventory_item_asset_type_name(x) != s@ by {
            match x {
                InventoryItemAssetType::ClassicTshirt => {},
                InventoryItemAssetType::Audio => {},
                InventoryItemAssetType::Hat => {},
                InventoryItemAssetType::Model => {},
                InventoryItemAssetType::ClassicShirt => {},
                InventoryItemAssetType::ClassicPants => {},
                InventoryItemAssetType::Decal => {},
                InventoryItemAssetType::ClassicHead => {},
                InventoryItemAssetType::Face => {},
                InventoryItemAssetType::Gear => {},
                InventoryItemAssetType::Animation => {},
                InventoryItemAssetType::Torso => {},
                InventoryItemAssetType::RightArm => {},
                InventoryItemAssetType::LeftArm => {},
                InventoryItemAssetType::LeftLeg => {},
                InventoryItemAssetType::RightLeg => {},
                InventoryItemAssetType::Package => {},
                InventoryItemAssetType::Plugin => {},
                InventoryItemAssetType::MeshPart => {},
                InventoryItemAssetType::HairAccessory => {},
                InventoryItemAssetType::FaceAccessory => {},
                InventoryItemAssetType::NeckAccessory => {},
                InventoryItemAssetType::ShoulderAccessory => {},
                InventoryItemAssetType::FrontAccessory => {},
                InventoryItemAssetType::BackAccessory => {},
                InventoryItemAssetType::WaistAccessory => {},
                InventoryItemAssetType::ClimbAnimation => {},
                InventoryItemAssetType::DeathAnimation => {},
                InventoryItemAssetType::FallAnimation => {},
                InventoryItemAssetType::IdleAnimation => {},
                InventoryItemAssetType::JumpAnimation => {},
                InventoryItemAssetType::RunAnimation => {},
                InventoryItemAssetType::SwimAnimation => {},
                InventoryItemAssetType::WalkAnimation => {},
                InventoryItemAssetType::PoseAnimation => {},
                InventoryItemAssetType::EmoteAnimation => {},
                InventoryItemAssetType::Video => {},
                InventoryItemAssetType::TshirtAccessory => {},
                InventoryItemAssetType::ShirtAccessory => {},
                InventoryItemAssetType::PantsAccessory => {},
                InventoryItemAssetType::JacketAccessory => {},
                InventoryItemAssetType::SweaterAccessory => {},
                InventoryItemAssetType::ShortsAccessory => {},
                InventoryItemAssetType::LeftShoeAccessory => {},
                InventoryItemAssetType::RightShoeAccessory => {},
                InventoryItemAssetType::DressSkirtAccessory => {},
                InventoryItemAssetType::EyebrowAccessory => {},
                InventoryItemAssetType::EyelashAccessory => {},
                InventoryItemAssetType::MoodAnimation => {},
                InventoryItemAssetType::DynamicHead => {},
                InventoryItemAssetType::CreatedPlace => {},
                InventoryItemAssetType::PurchasedPlace => {},
            }
        }
        None
    }
}

/// The collectible details of an item.
#[derive(Debug, Clone)]
pub struct InventoryItemCollectibleDetails {
    pub item_id: String,
    pub instance_id: String,
    pub instance_state: InventoryItemInstanceState,
    pub serial_number: u64,
}

/// `body` has the JSON shape of a [`InventoryItemCollectibleDetails`].
pub open spec fn inventory_item_collectible_details_parses(body: Seq<char>) -> bool {
    &&& json_str_at(body, "itemId"@) is Some
    &&& json_str_at(body, "instanceId"@) is Some
    &&& json_str_at(body, "instanceState"@) matches Some(s) && exists|x: InventoryItemInstanceState| #[trigger] inventory_item_instance_state_name(x) == s
    &&& json_u64_at(body, "serialNumber"@) is Some
}

/// `body` is the JSON form of `v`.
pub open spec fn inventory_item_collectible_details_matches(body: Seq<char>, v: InventoryItemCollectibleDetails) -> bool {
    &&& json_str_at(body, "itemId"@) == Some(v.item_id@)
    &&& json_str_at(body, "instanceId"@) == Some(v.instance_id@)
    &&& json_str_at(body, "instanceState"@) == Some(inventory_item_instance_state_name(v.instance_state))
    &&& json_u64_at(body, "serialNumber"@) == Some(v.serial_number)
}

impl InventoryItemCollectibleDetails {
    /// Reads a [`InventoryItemCollectibleDetails`] out of a JSON body; fails exactly when the body
    /// does not have its shape.
    pub fn decode(body: &str) -> (r: Result<InventoryItemCollectibleDetails, Error>)
        ensures
            inventory_item_collectible_details_parses(body@) <==> r is Ok,
            r matches Ok(v) ==> inventory_item_collectible_details_matches(body@, v),
            r matches Err(e) ==> e is SerdeJsonError,
    {
        let item_id = match json_str_field(body, "itemId") {
            Some(x) => x,
            None => {
                return Err(malformed("InventoryItemCollectibleDetails"));
            },
        };
        let instance_id = match json_str_field(body, "instanceId") {
            Some(x) => x,
            None => {
                return Err(malformed("InventoryItemCollectibleDetails"));
            },
        };
        let instance_state = match json_str_field(body, "instanceState") {
            Some(s) => match InventoryItemInstanceState::from_name(s.as_str()) {
                Some(x) => x,
                None => {
                    return Err(malformed("InventoryItemCollectibleDetails"));
                },
            },
            None => {
                return Err(malformed("InventoryItemCollectibleDetails"));
            },
        };
        let serial_number = match json_u64_field(body, "serialNumber") {
            Some(x) => x,
            None => {
                return Err(malformed("InventoryItemCollectibleDetails"));
            },
        };
        Ok(InventoryItemCollectibleDetails { item_id, instance_id, instance_state, serial_number })
    }
}

/// An asset in an inventory.
#[derive(Debug, Clone)]
pub struct InventoryItemAssetDetails {
    pub asset_id: String,
    pub instance_id: String,
    pub inventory_item_asset_type: InventoryItemAssetType,
    pub collectible_details: Option<InventoryItemCollectibleDetails>,
}

/// `body` has the JSON shape of a [`InventoryItemAssetDetails`].
pub open spec fn inventory_item_asset_details_parses(body: Seq<char>) -> bool {
    &&& json_str_at(body, "assetId"@) is Some
    &&& json_str_at(body, "instanceId"@) is Some
    &&& json_str_at(body, "inventoryItemAssetType"@) matches Some(s) && exists|x: InventoryItemAssetType| #[trigger] inventory_item_asset_type_name(x) == s
    &&& json_sub_at(body, "collectibleDetails"@) matches Some(t) ==> inventory_item_collectible_details_parses(t)
}

/// `body` is the JSON form of `v`.
pub open spec fn inventory_item_asset_details_matches(body: Seq<char>, v: InventoryItemAssetDetails) -> bool {
    &&& json_str_at(body, "assetId"@) == Some(v.asset_id@)
    &&& json_str_at(body, "instanceId"@) == Some(v.instance_id@)
    &&& json_str_at(body, "inventoryItemAssetType"@) == Some(inventory_item_asset_type_name(v.inventory_item_asset_type))
    &&& (match json_sub_at(body, "collectibleDetails"@) { Some(t) => v.collectible_details matches Some(x) && inventory_item_collectible_details_matches(t, x), None => v.collectible_details is None })
}

impl InventoryItemAssetDetails {
    /// Reads a [`InventoryItemAssetDetails`] out of a JSON body; fails exactly when the body
    /// does not have its shape.
    pub fn decode(body: &str) -> (r: Result<InventoryItemAssetDetails, Error>)
        ensures
            inventory_item_asset_details_parses(body@) <==> r is Ok,
            r matches Ok(v) ==> inventory_item_asset_details_matches(body@, v),
            r matches Err(e) ==> e is SerdeJsonError,
    {
        let asset_id = match json_str_field(body, "assetId") {
            Some(x) => x,
            None => {
                return Err(malformed("InventoryItemAssetDetails"));
            },
        };
        let instance_id = match json_str_field(body, "instanceId") {
            Some(x) => x,
            None => {
                return Err(malformed("InventoryItemAssetDetails"));
            },
        };
        let inventory_item_asset_type = match json_str_field(body, "inventoryItemAssetType") {
            Some(s) => match InventoryItemAssetType::from_name(s.as_str()) {
                Some(x) => x,
                None => {
                    return Err(malformed("InventoryItemAssetDetails"));
                },
            },
            None => {
                return Err(malformed("InventoryItemAssetDetails"));
            },
        };
        let collectible_details = match json_sub_text(body, "collectibleDetails") {
            Some(t) => match InventoryItemCollectibleDetails::decode(t.as_str()) {
                Ok(x) => Some(x),
                Err(e) => {
                    return Err(e);
                },
            },
            None => None,
        };
        Ok(InventoryItemAssetDetails { asset_id, instance_id, inventory_item_asset_type, collectible_details })
    }
}

/// A badge in an inventory.
#[derive(Debug, Clone)]
pub struct InventoryItemBadgeDetails {
    pub badge_id: String,
}

/// `body` has the JSON shape of a [`InventoryItemBadgeDetails`].
pub open spec fn inventory_item_badge_details_parses(body: Seq<char>) -> bool {
    &&& json_str_at(body, "badgeId"@) is Some
}

/// `body` is the JSON form of `v`.
pub open spec fn inventory_item_badge_details_matches(body: Seq<char>, v: InventoryItemBadgeDetails) -> bool {
    &&& json_str_at(body, "badgeId"@) == Some(v.badge_id@)
}

impl InventoryItemBadgeDetails {
    /// Reads a [`InventoryItemBadgeDetails`] out of a JSON body; fails exactly when the body
    /// does not have its shape.
    pub fn decode(body: &str) -> (r: Result<InventoryItemBadgeDetails, Error>)
        ensures
            inventory_item_badge_details_parses(body@) <==> r is Ok,
            r matches Ok(v) ==> inventory_item_badge_details_matches(body@, v),
            r matches Err(e) ==> e is SerdeJsonError,
    {
        let badge_id = match json_str_field(body, "badgeId") {
            Some(x) => x,
            None => {
                return Err(malformed("InventoryItemBadgeDetails"));
            },
        };
        Ok(InventoryItemBadgeDetails { badge_id })
    }
}

/// A game pass in an inventory.
#[derive(Debug, Clone)]
pub struct InventoryItemGamePassDetails {
    pub game_pass_id: String,
}

/// `body` has the JSON shape of a [`InventoryItemGamePassDetails`].
pub open spec fn inventory_item_game_pass_details_parses(body: Seq<char>) -> bool {
    &&& json_str_at(body, "gamePassId"@) is Some
}

/// `body` is the JSON form of `v`.
pub open spec fn inventory_item_game_pass_details_matches(body: Seq<char>, v: InventoryItemGamePassDetails) -> bool {
    &&& json_str_at(body, "gamePassId"@) == Some(v.game_pass_id@)
}

impl InventoryItemGamePassDetails {
    /// Reads a [`InventoryItemGamePassDetails`] out of a JSON body; fails exactly when the body
    /// does not have its shape.
    pub fn decode(body: &str) -> (r: Result<InventoryItemGamePassDetails, Error>)
        ensures
            inventory_item_game_pass_details_parses(body@) <==> r is Ok,
            r matches Ok(v) ==> inventory_item_game_pass_details_matches(body@, v),
            r matches Err(e) ==> e is SerdeJsonError,
    {
        let game_pass_id = match json_str_field(body, "gamePassId") {
            Some(x) => x,
            None => {
                return Err(malformed("InventoryItemGamePassDetails"));
            },
        };
        Ok(InventoryItemGamePassDetails { game_pass_id })
    }
}

/// A private server in an inventory.
#[derive(Debug, Clone)]
pub struct InventoryItemPrivateServerDetails {
    pub private_server_id: String,
}

/// `body` has the JSON shape of a [`InventoryItemPrivateServerDetails`].
pub open spec fn inventory_item_private_server_details_parses(body: Seq<char>) -> bool {
    &&& json_str_at(body, "privateServerId"@) is Some
}

/// `body` is the JSON form of `v`.
pub open spec fn inventory_item_private_server_details_matches(body: Seq<char>, v: InventoryItemPrivateServerDetails) -> bool {
    &&& json_str_at(body, "privateServerId"@) == Some(v.private_server_id@)
}

impl InventoryItemPrivateServerDetails {
    /// Reads a [`InventoryItemPrivateServerDetails`] out of a JSON body; fails exactly when the body
    /// does not have its shape.
    pub fn decode(body: &str) -> (r: Result<InventoryItemPrivateServerDetails, Error>)
        ensures
            inventory_item_private_server_details_parses(body@) <==> r is Ok,
            r matches Ok(v) ==> inventory_item_private_server_details_matches(body@, v),
            r matches Err(e) ==> e is SerdeJsonError,
    {
        let private_server_id = match json_str_field(body, "privateServerId") {
            Some(x) => x,
            None => {
                return Err(malformed("InventoryItemPrivateServerDetails"));
            },
        };
        Ok(InventoryItemPrivateServerDetails { private_server_id })
    }
}

/// An item of an inventory; one of the details is present.
#[derive(Debug, Clone)]
pub struct InventoryItem {
    pub path: String,
    pub asset_details: Option<InventoryItemAssetDetails>,
    pub badge_details: Option<InventoryItemBadgeDetails>,
    pub game_pass_details: Option<InventoryItemGamePassDetails>,
    pub private_server_details: Option<InventoryItemPrivateServerDetails>,
    pub add_time: Option<String>,
}

/// `body` has the JSON shape of a [`InventoryItem`].
pub open spec fn inventory_item_parses(body: Seq<char>) -> bool {
    &&& json_str_at(body, "path"@) is Some
    &&& json_sub_at(body, "assetDetails"@) matches Some(t) ==> inventory_item_asset_details_parses(t)
    &&& json_sub_at(body, "badgeDetails"@) matches Some(t) ==> inventory_item_badge_details_parses(t)
    &&& json_sub_at(body, "gamePassDetails"@) matches Some(t) ==> inventory_item_game_pass_details_parses(t)
    &&& json_sub_at(body, "privateServerDetails"@) matches Some(t) ==> inventory_item_private_server_details_parses(t)
}

/// `body` is the JSON form of `v`.
pub open spec fn inventory_item_matches(body: Seq<char>, v: InventoryItem) -> bool {
    &&& json_str_at(body, "path"@) == Some(v.path@)
    &&& (match json_sub_at(body, "assetDetails"@) { Some(t) => v.asset_details matches Some(x) && inventory_item_asset_details_matches(t, x), None => v.asset_details is None })
    &&& (match json_sub_at(body, "badgeDetails"@) { Some(t) => v.badge_details matches Some(x) && inventory_item_badge_details_matches(t, x), None => v.badge_details is None })
    &&& (match json_sub_at(body, "gamePassDetails"@) { Some(t) => v.game_pass_details matches Some(x) && inventory_item_game_pass_details_matches(t, x), None => v.game_pass_details is None })
    &&& (match json_sub_at(body, "privateServerDetails"@) { Some(t) => v.private_server_details matches Some(x) && inventory_item_private_server_details_matches(t, x), None => v.private_server_details is None })
    &&& json_str_at(body, "addTime"@) == opt_text(v.add_time)
}

impl InventoryItem {
    /// Reads a [`InventoryItem`] out of a JSON body; fails exactly when the body
    /// does not have its shape.
    pub fn decode(body: &str) -> (r: Result<InventoryItem, Error>)
        ensures
            inventory_item_parses(body@) <==> r is Ok,
            r matches Ok(v) ==> inventory_item_matches(body@, v),
            r matches Err(e) ==> e is SerdeJsonError,
    {
        let path = match json_str_field(body, "path") {
            Some(x) => x,
            None => {
                return Err(malformed("InventoryItem"));
            },
        };
        let asset_details = match json_sub_text(body, "assetDetails") {
            Some(t) => match InventoryItemAssetDetails::decode(t.as_str()) {
                Ok(x) => Some(x),
                Err(e) => {
                    return Err(e);
                },
            },
            None => None,
        };
        let badge_details = match json_sub_text(body, "badgeDetails") {
            Some(t) => match InventoryItemBadgeDetails::decode(t.as_str()) {
                Ok(x) => Some(x),
                Err(e) => {
                    return Err(e);
                },
            },
            None => None,
        };
        let game_pass_details = match json_sub_text(body, "gamePassDetails") {
            Some(t) => match InventoryItemGamePassDetails::decode(t.as_str()) {
                Ok(x) => Some(x),
                Err(e) => {
                    return Err(e);
                },
            },
            None => None,
        };
        let private_server_details = match json_sub_text(body, "privateServerDetails") {
            Some(t) => match InventoryItemPrivateServerDetails::decode(t.as_str()) {
                Ok(x) => Some(x),
                Err(e) => {
                    return Err(e);
                },
            },
            None => None,
        };
        let add_time = json_str_field(body, "addTime");
        Ok(InventoryItem { path, asset_details, badge_details, game_pass_details, private_server_details, add_time })
    }
}

/// One page of inventory items, with the token of the next page.
#[derive(Debug, Clone)]
pub struct InventoryItems {
    pub inventory_items: Vec<InventoryItem>,
    pub next_page_token: String,
}

/// `body` has the JSON shape of a [`InventoryItems`].
pub open spec fn inventory_items_parses(body: Seq<char>) -> bool {
    &&& json_len_at(body, "inventoryItems"@) matches Some(n) && (forall|i: usize| i < n ==> (#[trigger] json_item_at(body, "inventoryItems"@, i) matches Some(t) && inventory_item_parses(t)))
    &&& json_str_at(body, "nextPageToken"@) is Some
}

/// `body` is the JSON form of `v`.
pub open spec fn inventory_items_matches(body: Seq<char>, v: InventoryItems) -> bool {
    &&& json_len_at(body, "inventoryItems"@) == Some(v.inventory_items@.len() as usize) && (forall|i: int| 0 <= i < v.inventory_items@.len() ==> (json_item_at(body, "inventoryItems"@, i as usize) matches Some(t) && inventory_item_matches(t, #[trigger] v.inventory_items@[i])))
    &&& json_str_at(body, "nextPageToken"@) == Some(v.next_page_token@)
}

impl InventoryItems {
    /// Reads a [`InventoryItems`] out of a JSON body; fails exactly when the body
    /// does not have its shape.
    pub fn decode(body: &str) -> (r: Result<InventoryItems, Error>)
        ensures
            inventory_items_parses(body@) <==> r is Ok,
            r matches Ok(v) ==> inventory_items_matches(body@, v),
            r matches Err(e) ==> e is SerdeJsonError,
    {
        let n = match json_array_len(body, "inventoryItems") {
            Some(n) => n,
            None => {
                return Err(malformed("InventoryItems"));
            },
        };
        let mut inventory_items: Vec<InventoryItem> = Vec::new();
        let mut i: usize = 0;
        while i < n
            invariant
                json_len_at(body@, "inventoryItems"@) == Some(n),
                i <= n,
                inventory_items@.len() == i,
                forall|k: int| 0 <= k < i ==> (json_item_at(body@, "inventoryItems"@, k as usize) matches Some(t) && inventory_item_matches(t, #[trigger] inventory_items@[k])),
                forall|k: usize| k < i ==> (#[trigger] json_item_at(body@, "inventoryItems"@, k) matches Some(t) && inventory_item_parses(t)),
            decreases n - i,
        {
            let t = match json_item_text(body, "inventoryItems", i) {
                Some(t) => t,
                None => {
                    return Err(malformed("InventoryItems"));
                },
            };
            let x = match InventoryItem::decode(t.as_str()) {
                Ok(x) => x,
                Err(e) => {
                    return Err(e);
                },
            };
            inventory_items.push(x);
            i = i + 1;
        }
        let next_page_token = match json_str_field(body, "nextPageToken") {
            Some(x) => x,
            None => {
                return Err(malformed("InventoryItems"));
            },
        };
        Ok(InventoryItems { inventory_items, next_page_token })
    }
}

} // verus!
