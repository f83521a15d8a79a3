//! The closed set of record kinds that an archive may hold, and the
//! qualified key under which each kind is stored.

use vstd::prelude::*;

verus! {

use vstd::string::StrSliceExecFns;
use vstd::string::StringSliceAdditionalSpecFns;
use vstd::string::StringExecFns;
use vstd::utf8::{decode_utf8, encode_utf8_decode_utf8};

/// A key that names no kind of record.
#[derive(Debug)]
pub struct UnknownKeyError {
    pub key: String,
}

/// A kind of record, each stored under one qualified key.
#[derive(Clone, Copy, Debug, PartialEq, Eq, Structural)]
pub enum BalancingDataTypes {
    // ordinary records
    BattleBalancingData,
    ChronicleCaveFloorBalancingData,
    CustomMessageBalancingData,
    HotspotBalancingData,
    ExperienceScalingBalancingData,
    CollectionGroupBalancingData,
    ExperienceLevelBalancingData,
    InventoryBalancingData,
    ShopBalancingData,
    BattleParticipantTableBalancingData,
    ClassSkinBalancingData,
    ConditionalInventoryBalancingData,
    ChronicleCaveBattleBalancingData,
    ExperienceMasteryBalancingData,
    BirdBalancingData,
    CraftingRecipeBalancingData,
    MiniCampaignBalancingData,
    LootTableBalancingData,
    SocialEnvironmentBalancingData,
    BannerItemBalancingData,
    PremiumShopOfferBalancingData,
    GachaShopOfferBalancingData,
    PowerLevelBalancingData,
    PigBalancingData,
    EnchantingBalancingData,
    BuyableShopOfferBalancingData,
    ClientConfigBalancingData,
    ConsumableItemBalancingData,
    ResourceCostPerLevelBalancingData,
    SkillBalancingData,
    EventItemBalancingData,
    GameConstantsBalancingData,
    CraftingItemBalancingData,
    DailyLoginGiftsBalancingData,
    LoadingHintBalancingData,
    SetFusionBalancingData,
    EquipmentBalancingData,
    ChronicleCaveHotspotBalancingData,
    MasteryItemBalancingData,
    SplashScreenBalancingData,
    PigTypePowerLevelBalancingData,
    PvPObjectivesBalancingData,
    ThirdPartyIdBalancingData,
    BasicItemBalancingData,
    BattleHintBalancingData,
    BossBalancingData,
    ScoreBalancingData,
    SalesManagerBalancingData,
    BannerBalancingData,
    ChronicleCaveBattleParticipantTableBalancingData,
    ClassItemBalancingData,
    // event records
    EventBalancingData,
    BonusEventBalancingData,
    PvPSeasonManagerBalancingData,
    EventPlacementBalancingData,
    EventManagerBalancingData,
}

/// Number of record kinds.
pub const KIND_COUNT: usize = 56;

impl BalancingDataTypes {
    /// The qualified key of the kind.
    pub open spec fn key_of(self) -> Seq<char> {
        match self {
            BalancingDataTypes::BattleBalancingData => "ABH.Shared.BalancingData.BattleBalancingData"@,
            BalancingDataTypes::ChronicleCaveFloorBalancingData => "ABH.Shared.BalancingData.ChronicleCaveFloorBalancingData"@,
            BalancingDataTypes::CustomMessageBalancingData => "ABH.Shared.BalancingData.CustomMessageBalancingData"@,
            BalancingDataTypes::HotspotBalancingData => "ABH.Shared.BalancingData.HotspotBalancingData"@,
            BalancingDataTypes::ExperienceScalingBalancingData => "ABH.Shared.BalancingData.ExperienceScalingBalancingData"@,
            BalancingDataTypes::CollectionGroupBalancingData => "ABH.Shared.BalancingData.CollectionGroupBalancingData"@,
            BalancingDataTypes::ExperienceLevelBalancingData => "ABH.Shared.BalancingData.ExperienceLevelBalancingData"@,
            BalancingDataTypes::InventoryBalancingData => "ABH.Shared.BalancingData.InventoryBalancingData"@,
            BalancingDataTypes::ShopBalancingData => "ABH.Shared.BalancingData.ShopBalancingData"@,
            BalancingDataTypes::BattleParticipantTableBalancingData => "ABH.Shared.BalancingData.BattleParticipantTableBalancingData"@,
            BalancingDataTypes::ClassSkinBalancingData => "ABH.Shared.BalancingData.ClassSkinBalancingData"@,
            BalancingDataTypes::ConditionalInventoryBalancingData => "ABH.Shared.BalancingData.ConditionalInventoryBalancingData"@,
            BalancingDataTypes::ChronicleCaveBattleBalancingData => "ABH.Shared.BalancingData.ChronicleCaveBattleBalancingData"@,
            BalancingDataTypes::ExperienceMasteryBalancingData => "ABH.Shared.BalancingData.ExperienceMasteryBalancingData"@,
            BalancingDataTypes::BirdBalancingData => "ABH.Shared.BalancingData.BirdBalancingData"@,
            BalancingDataTypes::CraftingRecipeBalancingData => "ABH.Shared.BalancingData.CraftingRecipeBalancingData"@,
            BalancingDataTypes::MiniCampaignBalancingData => "ABH.Shared.BalancingData.MiniCampaignBalancingData"@,
            BalancingDataTypes::LootTableBalancingData => "ABH.Shared.BalancingData.LootTableBalancingData"@,
            BalancingDataTypes::SocialEnvironmentBalancingData => "ABH.Shared.BalancingData.SocialEnvironmentBalancingData"@,
            BalancingDataTypes::BannerItemBalancingData => "ABH.Shared.BalancingData.BannerItemBalancingData"@,
            BalancingDataTypes::PremiumShopOfferBalancingData => "ABH.Shared.BalancingData.PremiumShopOfferBalancingData"@,
            BalancingDataTypes::GachaShopOfferBalancingData => "ABH.Shared.BalancingData.GachaShopOfferBalancingData"@,
            BalancingDataTypes::PowerLevelBalancingData => "ABH.Shared.BalancingData.PowerLevelBalancingData"@,
            BalancingDataTypes::PigBalancingData => "ABH.Shared.BalancingData.PigBalancingData"@,
            BalancingDataTypes::EnchantingBalancingData => "ABH.Shared.BalancingData.EnchantingBalancingData"@,
            BalancingDataTypes::BuyableShopOfferBalancingData => "ABH.Shared.BalancingData.BuyableShopOfferBalancingData"@,
            BalancingDataTypes::ClientConfigBalancingData => "ABH.Shared.BalancingData.ClientConfigBalancingData"@,
            BalancingDataTypes::ConsumableItemBalancingData => "ABH.Shared.BalancingData.ConsumableItemBalancingData"@,
            BalancingDataTypes::ResourceCostPerLevelBalancingData => "ABH.Shared.BalancingData.ResourceCostPerLevelBalancingData"@,
            BalancingDataTypes::SkillBalancingData => "ABH.Shared.BalancingData.SkillBalancingData"@,
            BalancingDataTypes::EventItemBalancingData => "ABH.Shared.BalancingData.EventItemBalancingData"@,
            BalancingDataTypes::GameConstantsBalancingData => "ABH.Shared.BalancingData.GameConstantsBalancingData"@,
            BalancingDataTypes::CraftingItemBalancingData => "ABH.Shared.BalancingData.CraftingItemBalancingData"@,
            BalancingDataTypes::DailyLoginGiftsBalancingData => "ABH.Shared.BalancingData.DailyLoginGiftsBalancingData"@,
            BalancingDataTypes::LoadingHintBalancingData => "ABH.Shared.BalancingData.LoadingHintBalancingData"@,
            BalancingDataTypes::SetFusionBalancingData => "ABH.Shared.BalancingData.SetFusionBalancingData"@,
            BalancingDataTypes::EquipmentBalancingData => "ABH.Shared.BalancingData.EquipmentBalancingData"@,
            BalancingDataTypes::ChronicleCaveHotspotBalancingData => "ABH.Shared.BalancingData.ChronicleCaveHotspotBalancingData"@,
            BalancingDataTypes::MasteryItemBalancingData => "ABH.Shared.BalancingData.MasteryItemBalancingData"@,
            BalancingDataTypes::SplashScreenBalancingData => "ABH.Shared.BalancingData.SplashScreenBalancingData"@,
            BalancingDataTypes::PigTypePowerLevelBalancingData => "ABH.Shared.BalancingData.PigTypePowerLevelBalancingData"@,
            BalancingDataTypes::PvPObjectivesBalancingData => "ABH.Shared.BalancingData.PvPObjectivesBalancingData"@,
            BalancingDataTypes::ThirdPartyIdBalancingData => "ABH.Shared.BalancingData.ThirdPartyIdBalancingData"@,
            BalancingDataTypes::BasicItemBalancingData => "ABH.Shared.BalancingData.BasicItemBalancingData"@,
            BalancingDataTypes::BattleHintBalancingData => "ABH.Shared.BalancingData.BattleHintBalancingData"@,
            BalancingDataTypes::BossBalancingData => "ABH.Shared.BalancingData.BossBalancingData"@,
            BalancingDataTypes::ScoreBalancingData => "ABH.Shared.BalancingData.ScoreBalancingData"@,
            BalancingDataTypes::SalesManagerBalancingData => "ABH.Shared.BalancingData.SalesManagerBalancingData"@,
            BalancingDataTypes::BannerBalancingData => "ABH.Shared.BalancingData.BannerBalancingData"@,
            BalancingDataTypes::ChronicleCaveBattleParticipantTableBalancingData => "ABH.Shared.BalancingData.ChronicleCaveBattleParticipantTableBalancingData"@,
            BalancingDataTypes::ClassItemBalancingData => "ABH.Shared.BalancingData.ClassItemBalancingData"@,
            BalancingDataTypes::EventBalancingData => "ABH.Shared.Events.BalancingData.EventBalancingData"@,
            BalancingDataTypes::BonusEventBalancingData => "ABH.Shared.Events.BalancingData.BonusEventBalancingData"@,
            BalancingDataTypes::PvPSeasonManagerBalancingData => "ABH.Shared.Events.BalancingData.PvPSeasonManagerBalancingData"@,
            BalancingDataTypes::EventPlacementBalancingData => "ABH.Shared.Events.BalancingData.EventPlacementBalancingData"@,
            BalancingDataTypes::EventManagerBalancingData => "ABH.Shared.Events.BalancingData.EventManagerBalancingData"@,
        }
    }

    /// Position of the kind in the table order.
    pub open spec fn index_of(self) -> int {
        match self {
            BalancingDataTypes::BattleBalancingData => 0,
            BalancingDataTypes::ChronicleCaveFloorBalancingData => 1,
            BalancingDataTypes::CustomMessageBalancingData => 2,
            BalancingDataTypes::HotspotBalancingData => 3,
            BalancingDataTypes::ExperienceScalingBalancingData => 4,
            BalancingDataTypes::CollectionGroupBalancingData => 5,
            BalancingDataTypes::ExperienceLevelBalancingData => 6,
            BalancingDataTypes::InventoryBalancingData => 7,
            BalancingDataTypes::ShopBalancingData => 8,
            BalancingDataTypes::BattleParticipantTableBalancingData => 9,
            BalancingDataTypes::ClassSkinBalancingData => 10,
            BalancingDataTypes::ConditionalInventoryBalancingData => 11,
            BalancingDataTypes::ChronicleCaveBattleBalancingData => 12,
            BalancingDataTypes::ExperienceMasteryBalancingData => 13,
            BalancingDataTypes::BirdBalancingData => 14,
            BalancingDataTypes::CraftingRecipeBalancingData => 15,
            BalancingDataTypes::MiniCampaignBalancingData => 16,
            BalancingDataTypes::LootTableBalancingData => 17,
            BalancingDataTypes::SocialEnvironmentBalancingData => 18,
            BalancingDataTypes::BannerItemBalancingData => 19,
            BalancingDataTypes::PremiumShopOfferBalancingData => 20,
            BalancingDataTypes::GachaShopOfferBalancingData => 21,
            BalancingDataTypes::PowerLevelBalancingData => 22,
            BalancingDataTypes::PigBalancingData => 23,
            BalancingDataTypes::EnchantingBalancingData => 24,
            BalancingDataTypes::BuyableShopOfferBalancingData => 25,
            BalancingDataTypes::ClientConfigBalancingData => 26,
            BalancingDataTypes::ConsumableItemBalancingData => 27,
            BalancingDataTypes::ResourceCostPerLevelBalancingData => 28,
            BalancingDataTypes::SkillBalancingData => 29,
            BalancingDataTypes::EventItemBalancingData => 30,
            BalancingDataTypes::GameConstantsBalancingData => 31,
            BalancingDataTypes::CraftingItemBalancingData => 32,
            BalancingDataTypes::DailyLoginGiftsBalancingData => 33,
            BalancingDataTypes::LoadingHintBalancingData => 34,
            BalancingDataTypes::SetFusionBalancingData => 35,
            BalancingDataTypes::EquipmentBalancingData => 36,
            BalancingDataTypes::ChronicleCaveHotspotBalancingData => 37,
            BalancingDataTypes::MasteryItemBalancingData => 38,
            BalancingDataTypes::SplashScreenBalancingData => 39,
            BalancingDataTypes::PigTypePowerLevelBalancingData => 40,
            BalancingDataTypes::PvPObjectivesBalancingData => 41,
            BalancingDataTypes::ThirdPartyIdBalancingData => 42,
            BalancingDataTypes::BasicItemBalancingData => 43,
            BalancingDataTypes::BattleHintBalancingData => 44,
            BalancingDataTypes::BossBalancingData => 45,
            BalancingDataTypes::ScoreBalancingData => 46,
            BalancingDataTypes::SalesManagerBalancingData => 47,
            BalancingDataTypes::BannerBalancingData => 48,
            BalancingDataTypes::ChronicleCaveBattleParticipantTableBalancingData => 49,
            BalancingDataTypes::ClassItemBalancingData => 50,
            BalancingDataTypes::EventBalancingData => 51,
            BalancingDataTypes::BonusEventBalancingData => 52,
            BalancingDataTypes::PvPSeasonManagerBalancingData => 53,
            BalancingDataTypes::EventPlacementBalancingData => 54,
            BalancingDataTypes::EventManagerBalancingData => 55,
        }
    }

    /// The qualified key of the kind.
    pub fn as_key(&self) -> (r: &'static str)
        ensures
            r@ == self.key_of(),
    {
        match self {
            BalancingDataTypes::BattleBalancingData => "ABH.Shared.BalancingData.BattleBalancingData",
            BalancingDataTypes::ChronicleCaveFloorBalancingData => "ABH.Shared.BalancingData.ChronicleCaveFloorBalancingData",
            BalancingDataTypes::CustomMessageBalancingData => "ABH.Shared.BalancingData.CustomMessageBalancingData",
            BalancingDataTypes::HotspotBalancingData => "ABH.Shared.BalancingData.HotspotBalancingData",
            BalancingDataTypes::ExperienceScalingBalancingData => "ABH.Shared.BalancingData.ExperienceScalingBalancingData",
            BalancingDataTypes::CollectionGroupBalancingData => "ABH.Shared.BalancingData.CollectionGroupBalancingData",
            BalancingDataTypes::ExperienceLevelBalancingData => "ABH.Shared.BalancingData.ExperienceLevelBalancingData",
            BalancingDataTypes::InventoryBalancingData => "ABH.Shared.BalancingData.InventoryBalancingData",
            BalancingDataTypes::ShopBalancingData => "ABH.Shared.BalancingData.ShopBalancingData",
            BalancingDataTypes::BattleParticipantTableBalancingData => "ABH.Shared.BalancingData.BattleParticipantTableBalancingData",
            BalancingDataTypes::ClassSkinBalancingData => "ABH.Shared.BalancingData.ClassSkinBalancingData",
            BalancingDataTypes::ConditionalInventoryBalancingData => "ABH.Shared.BalancingData.ConditionalInventoryBalancingData",
            BalancingDataTypes::ChronicleCaveBattleBalancingData => "ABH.Shared.BalancingData.ChronicleCaveBattleBalancingData",
            BalancingDataTypes::ExperienceMasteryBalancingData => "ABH.Shared.BalancingData.ExperienceMasteryBalancingData",
            BalancingDataTypes::BirdBalancingData => "ABH.Shared.BalancingData.BirdBalancingData",
            BalancingDataTypes::CraftingRecipeBalancingData => "ABH.Shared.BalancingData.CraftingRecipeBalancingData",
            BalancingDataTypes::MiniCampaignBalancingData => "ABH.Shared.BalancingData.MiniCampaignBalancingData",
            BalancingDataTypes::LootTableBalancingData => "ABH.Shared.BalancingData.LootTableBalancingData",
            BalancingDataTypes::SocialEnvironmentBalancingData => "ABH.Shared.BalancingData.SocialEnvironmentBalancingData",
            BalancingDataTypes::BannerItemBalancingData => "ABH.Shared.BalancingData.BannerItemBalancingData",
            BalancingDataTypes::PremiumShopOfferBalancingData => "ABH.Shared.BalancingData.PremiumShopOfferBalancingData",
            BalancingDataTypes::GachaShopOfferBalancingData => "ABH.Shared.BalancingData.GachaShopOfferBalancingData",
            BalancingDataTypes::PowerLevelBalancingData => "ABH.Shared.BalancingData.PowerLevelBalancingData",
            BalancingDataTypes::PigBalancingData => "ABH.Shared.BalancingData.PigBalancingData",
            BalancingDataTypes::EnchantingBalancingData => "ABH.Shared.BalancingData.EnchantingBalancingData",
            BalancingDataTypes::BuyableShopOfferBalancingData => "ABH.Shared.BalancingData.BuyableShopOfferBalancingData",
            BalancingDataTypes::ClientConfigBalancingData => "ABH.Shared.BalancingData.ClientConfigBalancingData",
            BalancingDataTypes::ConsumableItemBalancingData => "ABH.Shared.BalancingData.ConsumableItemBalancingData",
            BalancingDataTypes::ResourceCostPerLevelBalancingData => "ABH.Shared.BalancingData.ResourceCostPerLevelBalancingData",
            BalancingDataTypes::SkillBalancingData => "ABH.Shared.BalancingData.SkillBalancingData",
            BalancingDataTypes::EventItemBalancingData => "ABH.Shared.BalancingData.EventItemBalancingData",
            BalancingDataTypes::GameConstantsBalancingData => "ABH.Shared.BalancingData.GameConstantsBalancingData",
            BalancingDataTypes::CraftingItemBalancingData => "ABH.Shared.BalancingData.CraftingItemBalancingData",
            BalancingDataTypes::DailyLoginGiftsBalancingData => "ABH.Shared.BalancingData.DailyLoginGiftsBalancingData",
            BalancingDataTypes::LoadingHintBalancingData => "ABH.Shared.BalancingData.LoadingHintBalancingData",
            BalancingDataTypes::SetFusionBalancingData => "ABH.Shared.BalancingData.SetFusionBalancingData",
            BalancingDataTypes::EquipmentBalancingData => "ABH.Shared.BalancingData.EquipmentBalancingData",
            BalancingDataTypes::ChronicleCaveHotspotBalancingData => "ABH.Shared.BalancingData.ChronicleCaveHotspotBalancingData",
            BalancingDataTypes::MasteryItemBalancingData => "ABH.Shared.BalancingData.MasteryItemBalancingData",
            BalancingDataTypes::SplashScreenBalancingData => "ABH.Shared.BalancingData.SplashScreenBalancingData",
            BalancingDataTypes::PigTypePowerLevelBalancingData => "ABH.Shared.BalancingData.PigTypePowerLevelBalancingData",
            BalancingDataTypes::PvPObjectivesBalancingData => "ABH.Shared.BalancingData.PvPObjectivesBalancingData",
            BalancingDataTypes::ThirdPartyIdBalancingData => "ABH.Shared.BalancingData.ThirdPartyIdBalancingData",
            BalancingDataTypes::BasicItemBalancingData => "ABH.Shared.BalancingData.BasicItemBalancingData",
            BalancingDataTypes::BattleHintBalancingData => "ABH.Shared.BalancingData.BattleHintBalancingData",
            BalancingDataTypes::BossBalancingData => "ABH.Shared.BalancingData.BossBalancingData",
            BalancingDataTypes::ScoreBalancingData => "ABH.Shared.BalancingData.ScoreBalancingData",
            BalancingDataTypes::SalesManagerBalancingData => "ABH.Shared.BalancingData.SalesManagerBalancingData",
            BalancingDataTypes::BannerBalancingData => "ABH.Shared.BalancingData.BannerBalancingData",
            BalancingDataTypes::ChronicleCaveBattleParticipantTableBalancingData => "ABH.Shared.BalancingData.ChronicleCaveBattleParticipantTableBalancingData",
            BalancingDataTypes::ClassItemBalancingData => "ABH.Shared.BalancingData.ClassItemBalancingData",
            BalancingDataTypes::EventBalancingData => "ABH.Shared.Events.BalancingData.EventBalancingData",
            BalancingDataTypes::BonusEventBalancingData => "ABH.Shared.Events.BalancingData.BonusEventBalancingData",
            BalancingDataTypes::PvPSeasonManagerBalancingData => "ABH.Shared.Events.BalancingData.PvPSeasonManagerBalancingData",
            BalancingDataTypes::EventPlacementBalancingData => "ABH.Shared.Events.BalancingData.EventPlacementBalancingData",
            BalancingDataTypes::EventManagerBalancingData => "ABH.Shared.Events.BalancingData.EventManagerBalancingData",
        }
    }

    /// Every kind, in table order.
    pub fn all() -> (r: Vec<BalancingDataTypes>)
        ensures
            r@.len() == KIND_COUNT,
            forall|k: BalancingDataTypes| 0 <= #[trigger] k.index_of() < KIND_COUNT && r@[k.index_of()] == k,
    {
        vec![
            BalancingDataTypes::BattleBalancingData,
            BalancingDataTypes::ChronicleCaveFloorBalancingData,
            BalancingDataTypes::CustomMessageBalancingData,
            BalancingDataTypes::HotspotBalancingData,
            BalancingDataTypes::ExperienceScalingBalancingData,
            BalancingDataTypes::CollectionGroupBalancingData,
            BalancingDataTypes::ExperienceLevelBalancingData,
            BalancingDataTypes::InventoryBalancingData,
            BalancingDataTypes::ShopBalancingData,
            BalancingDataTypes::BattleParticipantTableBalancingData,
            BalancingDataTypes::ClassSkinBalancingData,
            BalancingDataTypes::ConditionalInventoryBalancingData,
            BalancingDataTypes::ChronicleCaveBattleBalancingData,
            BalancingDataTypes::ExperienceMasteryBalancingData,
            BalancingDataTypes::BirdBalancingData,
            BalancingDataTypes::CraftingRecipeBalancingData,
            BalancingDataTypes::MiniCampaignBalancingData,
            BalancingDataTypes::LootTableBalancingData,
            BalancingDataTypes::SocialEnvironmentBalancingData,
            BalancingDataTypes::BannerItemBalancingData,
            BalancingDataTypes::PremiumShopOfferBalancingData,
            BalancingDataTypes::GachaShopOfferBalancingData,
            BalancingDataTypes::PowerLevelBalancingData,
            BalancingDataTypes::PigBalancingData,
            BalancingDataTypes::EnchantingBalancingData,
            BalancingDataTypes::BuyableShopOfferBalancingData,
            BalancingDataTypes::ClientConfigBalancingData,
            BalancingDataTypes::ConsumableItemBalancingData,
            BalancingDataTypes::ResourceCostPerLevelBalancingData,
            BalancingDataTypes::SkillBalancingData,
            BalancingDataTypes::EventItemBalancingData,
            BalancingDataTypes::GameConstantsBalancingData,
            BalancingDataTypes::CraftingItemBalancingData,
            BalancingDataTypes::DailyLoginGiftsBalancingData,
            BalancingDataTypes::LoadingHintBalancingData,
            BalancingDataTypes::SetFusionBalancingData,
            BalancingDataTypes::EquipmentBalancingData,
            BalancingDataTypes::ChronicleCaveHotspotBalancingData,
            BalancingDataTypes::MasteryItemBalancingData,
            BalancingDataTypes::SplashScreenBalancingData,
            BalancingDataTypes::PigTypePowerLevelBalancingData,
            BalancingDataTypes::PvPObjectivesBalancingData,
            BalancingDataTypes::ThirdPartyIdBalancingData,
            BalancingDataTypes::BasicItemBalancingData,
            BalancingDataTypes::BattleHintBalancingData,
            BalancingDataTypes::BossBalancingData,
            BalancingDataTypes::ScoreBalancingData,
            BalancingDataTypes::SalesManagerBalancingData,
            BalancingDataTypes::BannerBalancingData,
            BalancingDataTypes::ChronicleCaveBattleParticipantTableBalancingData,
            BalancingDataTypes::ClassItemBalancingData,
            BalancingDataTypes::EventBalancingData,
            BalancingDataTypes::BonusEventBalancingData,
            BalancingDataTypes::PvPSeasonManagerBalancingData,
            BalancingDataTypes::EventPlacementBalancingData,
            BalancingDataTypes::EventManagerBalancingData,
        ]
    }
}

/// Two kinds with the same key are the same kind.
pub proof fn lemma_key_injective(a: BalancingDataTypes, b: BalancingDataTypes)
    requires
        a.key_of() == b.key_of(),
    ensures
        a == b,
{
    reveal_strlit("ABH.Shared.BalancingData.BattleBalancingData");
    reveal_strlit("ABH.Shared.BalancingData.ChronicleCaveFloorBalancingData");
    reveal_strlit("ABH.Shared.BalancingData.CustomMessageBalancingData");
    reveal_strlit("ABH.Shared.BalancingData.HotspotBalancingData");
    reveal_strlit("ABH.Shared.BalancingData.ExperienceScalingBalancingData");
    reveal_strlit("ABH.Shared.BalancingData.CollectionGroupBalancingData");
    reveal_strlit("ABH.Shared.BalancingData.ExperienceLevelBalancingData");
    reveal_strlit("ABH.Shared.BalancingData.InventoryBalancingData");
    reveal_strlit("ABH.Shared.BalancingData.ShopBalancingData");
    reveal_strlit("ABH.Shared.BalancingData.BattleParticipantTableBalancingData");
    reveal_strlit("ABH.Shared.BalancingData.ClassSkinBalancingData");
    reveal_strlit("ABH.Shared.BalancingData.ConditionalInventoryBalancingData");
    reveal_strlit("ABH.Shared.BalancingData.ChronicleCaveBattleBalancingData");
    reveal_strlit("ABH.Shared.BalancingData.ExperienceMasteryBalancingData");
    reveal_strlit("ABH.Shared.BalancingData.BirdBalancingData");
    reveal_strlit("ABH.Shared.BalancingData.CraftingRecipeBalancingData");
    reveal_strlit("ABH.Shared.BalancingData.MiniCampaignBalancingData");
    reveal_strlit("ABH.Shared.BalancingData.LootTableBalancingData");
    reveal_strlit("ABH.Shared.BalancingData.SocialEnvironmentBalancingData");
    reveal_strlit("ABH.Shared.BalancingData.BannerItemBalancingData");
    reveal_strlit("ABH.Shared.BalancingData.PremiumShopOfferBalancingData");
    reveal_strlit("ABH.Shared.BalancingData.GachaShopOfferBalancingData");
    reveal_strlit("ABH.Shared.BalancingData.PowerLevelBalancingData");
    reveal_strlit("ABH.Shared.BalancingData.PigBalancingData");
    reveal_strlit("ABH.Shared.BalancingData.EnchantingBalancingData");
    reveal_strlit("ABH.Shared.BalancingData.BuyableShopOfferBalancingData");
    reveal_strlit("ABH.Shared.BalancingData.ClientConfigBalancingData");
    reveal_strlit("ABH.Shared.BalancingData.ConsumableItemBalancingData");
    reveal_strlit("ABH.Shared.BalancingData.ResourceCostPerLevelBalancingData");
    reveal_strlit("ABH.Shared.BalancingData.SkillBalancingData");
    reveal_strlit("ABH.Shared.BalancingData.EventItemBalancingData");
    reveal_strlit("ABH.Shared.BalancingData.GameConstantsBalancingData");
    reveal_strlit("ABH.Shared.BalancingData.CraftingItemBalancingData");
    reveal_strlit("ABH.Shared.BalancingData.DailyLoginGiftsBalancingData");
    reveal_strlit("ABH.Shared.BalancingData.LoadingHintBalancingData");
    reveal_strlit("ABH.Shared.BalancingData.SetFusionBalancingData");
    reveal_strlit("ABH.Shared.BalancingData.EquipmentBalancingData");
    reveal_strlit("ABH.Shared.BalancingData.ChronicleCaveHotspotBalancingData");
    reveal_strlit("ABH.Shared.BalancingData.MasteryItemBalancingData");
    reveal_strlit("ABH.Shared.BalancingData.SplashScreenBalancingData");
    reveal_strlit("ABH.Shared.BalancingData.PigTypePowerLevelBalancingData");
    reveal_strlit("ABH.Shared.BalancingData.PvPObjectivesBalancingData");
    reveal_strlit("ABH.Shared.BalancingData.ThirdPartyIdBalancingData");
    reveal_strlit("ABH.Shared.BalancingData.BasicItemBalancingData");
    reveal_strlit("ABH.Shared.BalancingData.BattleHintBalancingData");
    reveal_strlit("ABH.Shared.BalancingData.BossBalancingData");
    reveal_strlit("ABH.Shared.BalancingData.ScoreBalancingData");
    reveal_strlit("ABH.Shared.BalancingData.SalesManagerBalancingData");
    reveal_strlit("ABH.Shared.BalancingData.BannerBalancingData");
    reveal_strlit("ABH.Shared.BalancingData.ChronicleCaveBattleParticipantTableBalancingData");
    reveal_strlit("ABH.Shared.BalancingData.ClassItemBalancingData");
    reveal_strlit("ABH.Shared.Events.BalancingData.EventBalancingData");
    reveal_strlit("ABH.Shared.Events.BalancingData.BonusEventBalancingData");
    reveal_strlit("ABH.Shared.Events.BalancingData.PvPSeasonManagerBalancingData");
    reveal_strlit("ABH.Shared.Events.BalancingData.EventPlacementBalancingData");
    reveal_strlit("ABH.Shared.Events.BalancingData.EventManagerBalancingData");
    let (ka, kb) = (a.key_of(), b.key_of());
    assert(ka.len() == kb.len() && ka[26] == kb[26] && ka[30] == kb[30] && ka[35] == kb[35]);
}

/// True when some kind is stored under `s`.
pub open spec fn is_key(s: Seq<char>) -> bool {
    exists|k: BalancingDataTypes| k.key_of() == s
}

/// The kind stored under `s`, if any.
pub open spec fn lookup_key(s: Seq<char>) -> Option<BalancingDataTypes> {
    if is_key(s) {
        Some(choose|k: BalancingDataTypes| k.key_of() == s)
    } else {
        None
    }
}

/// Looking up the key of a kind gives that kind, and no other.
pub proof fn lemma_key_round_trip(k: BalancingDataTypes)
    ensures
        lookup_key(k.key_of()) == Some(k),
{
    let j = choose|j: BalancingDataTypes| j.key_of() == k.key_of();
    lemma_key_injective(j, k);
}

/// Namespace of the ordinary record kinds.
pub open spec fn shared_prefix() -> Seq<char> {
    "ABH.Shared.BalancingData."@
}

/// Namespace of the event record kinds.
pub open spec fn events_prefix() -> Seq<char> {
    "ABH.Shared.Events.BalancingData."@
}

/// Start of the part after the last `.` of `s` (0 when there is none).
pub open spec fn segment_start(s: Seq<char>) -> int
    decreases s.len(),
{
    if s.len() == 0 {
        0
    } else if s.last() == '.' {
        s.len() as int
    } else {
        segment_start(s.drop_last())
    }
}

/// The part of `s` after its last `.`, or all of `s`.
pub open spec fn last_segment(s: Seq<char>) -> Seq<char> {
    s.subrange(segment_start(s), s.len() as int)
}

/// The kind a user-given name resolves to: the name as a qualified key,
/// else its last segment under the ordinary namespace, else under the
/// event namespace.
pub open spec fn resolve_name(s: Seq<char>) -> Option<BalancingDataTypes> {
    if is_key(s) {
        lookup_key(s)
    } else if is_key(shared_prefix() + last_segment(s)) {
        lookup_key(shared_prefix() + last_segment(s))
    } else {
        lookup_key(events_prefix() + last_segment(s))
    }
}

proof fn lemma_segment_start_bounds(s: Seq<char>)
    ensures
        0 <= segment_start(s) <= s.len(),
    decreases s.len(),
{
    if s.len() > 0 && s.last() != '.' {
        lemma_segment_start_bounds(s.drop_last());
    }
}

/// Strings are equal exactly when their UTF-8 bytes are.
proof fn lemma_same_bytes(a: &str, b: &str)
    ensures
        (a.spec_bytes() == b.spec_bytes()) == (a@ == b@),
{
    if a.spec_bytes() == b.spec_bytes() {
        encode_utf8_decode_utf8(a@);
        encode_utf8_decode_utf8(b@);
    }
}

/// Compares two byte slices.
pub fn bytes_equal(a: &[u8], b: &[u8]) -> (r: bool)
    ensures
        r == (a@ == b@),
{
    if a.len() != b.len() {
        return false;
    }
    let mut i: usize = 0;
    while i < a.len()
        invariant
            a@.len() == b@.len(),
            0 <= i <= a@.len(),
            forall|j: int| 0 <= j < i ==> a@[j] == b@[j],
        decreases a@.len() - i,
    {
        if a[i] != b[i] {
            return false;
        }
        i += 1;
    }
    assert(a@ =~= b@);
    true
}

impl BalancingDataTypes {
    /// The kind stored under the qualified key `s`; any other string is refused.
    pub fn from_str(s: &str) -> (r: Result<BalancingDataTypes, UnknownKeyError>)
        ensures
            match r {
                Ok(k) => lookup_key(s@) == Some(k),
                Err(e) => lookup_key(s@) is None && e.key@ == s@,
            },
    {
        let kinds = BalancingDataTypes::all();
        let bytes = s.as_bytes();
        let mut i: usize = 0;
        while i < KIND_COUNT
            invariant
                kinds@.len() == KIND_COUNT,
                forall|k: BalancingDataTypes| 0 <= #[trigger] k.index_of() < KIND_COUNT && kinds@[k.index_of()] == k,
                bytes@ == s.spec_bytes(),
                0 <= i <= KIND_COUNT,
                forall|j: int| 0 <= j < i ==> kinds@[j].key_of() != s@,
            decreases KIND_COUNT - i,
        {
            let candidate = kinds[i].as_key();
            proof {
                lemma_same_bytes(s, candidate);
            }
            if bytes_equal(bytes, candidate.as_bytes()) {
                proof {
                    lemma_key_round_trip(kinds@[i as int]);
                }
                return Ok(kinds[i]);
            }
            i += 1;
        }
        assert forall|k: BalancingDataTypes| k.key_of() != s@ by {
            assert(kinds@[k.index_of()] == k);
        }
        Err(UnknownKeyError { key: s.to_owned() })
    }

    /// The qualified key of the kind, as an owned string.
    pub fn to_string(&self) -> (r: String)
        ensures
            r@ == self.key_of(),
    {
        self.as_key().to_owned()
    }
}

/// Resolves a kind from its qualified key, or from a name without its
/// namespace: the part after the last `.` is tried under the ordinary
/// namespace first, then under the event namespace.
pub fn get_key_from_name(name: &str) -> (r: Result<BalancingDataTypes, UnknownKeyError>)
    ensures
        match r {
            Ok(k) => resolve_name(name@) == Some(k),
            Err(_) => resolve_name(name@) is None,
        },
{
    if let Ok(k) = BalancingDataTypes::from_str(name) {
        return Ok(k);
    }
    let n = name.unicode_len();
    let mut start: usize = 0;
    let mut i: usize = 0;
    while i < n
        invariant
            n == name@.len(),
            0 <= i <= n,
            start == segment_start(name@.take(i as int)),
        decreases n - i,
    {
        assert(name@.take(i as int + 1).drop_last() =~= name@.take(i as int));
        if name.get_char(i) == '.' {
            start = i + 1;
        }
        i += 1;
    }
    assert(name@.take(n as int) =~= name@);
    proof {
        lemma_segment_start_bounds(name@);
    }
    let segment = name.substring_char(start, n);
    let shared = "ABH.Shared.BalancingData.".to_owned().concat(segment);
    if let Ok(k) = BalancingDataTypes::from_str(shared.as_str()) {
        return Ok(k);
    }
    let events = "ABH.Shared.Events.BalancingData.".to_owned().concat(segment);
    BalancingDataTypes::from_str(events.as_str())
}

} // verus!
