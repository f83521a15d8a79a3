use epic_data::registry::{get_key_from_name, BalancingDataTypes, KIND_COUNT};

#[test]
fn every_kind_round_trips_through_its_key() {
    let all = BalancingDataTypes::all();
    assert_eq!(all.len(), KIND_COUNT);
    for k in all {
        assert_eq!(BalancingDataTypes::from_str(k.as_key()).unwrap(), k);
        assert_eq!(k.to_string(), k.as_key());
    }
}

#[test]
fn keys_are_distinct() {
    let all = BalancingDataTypes::all();
    for (i, a) in all.iter().enumerate() {
        for b in all.iter().skip(i + 1) {
            assert_ne!(a.as_key(), b.as_key());
        }
    }
}

#[test]
fn known_keys_map_to_kinds() {
    assert_eq!(
        BalancingDataTypes::BattleBalancingData.as_key(),
        "ABH.Shared.BalancingData.BattleBalancingData"
    );
    assert_eq!(
        BalancingDataTypes::from_str("ABH.Shared.Events.BalancingData.EventManagerBalancingData").unwrap(),
        BalancingDataTypes::EventManagerBalancingData
    );
}

#[test]
fn unknown_keys_are_refused() {
    let err = BalancingDataTypes::from_str("ABH.Shared.BalancingData.NoSuchBalancingData").unwrap_err();
    assert_eq!(err.key, "ABH.Shared.BalancingData.NoSuchBalancingData");
    assert!(BalancingDataTypes::from_str("").is_err());
    assert!(BalancingDataTypes::from_str("BattleBalancingData").is_err());
    assert!(BalancingDataTypes::from_str("abh.shared.balancingdata.BattleBalancingData").is_err());
}

#[test]
fn short_names_resolve_through_namespaces() {
    assert_eq!(get_key_from_name("BattleBalancingData").unwrap(), BalancingDataTypes::BattleBalancingData);
    assert_eq!(get_key_from_name("EventBalancingData").unwrap(), BalancingDataTypes::EventBalancingData);
    assert_eq!(
        get_key_from_name("Some.Other.Namespace.BossBalancingData").unwrap(),
        BalancingDataTypes::BossBalancingData
    );
    assert_eq!(
        get_key_from_name("ABH.Shared.BalancingData.SkillBalancingData").unwrap(),
        BalancingDataTypes::SkillBalancingData
    );
    assert!(get_key_from_name("NoSuchBalancingData").is_err());
    assert!(get_key_from_name("BattleBalancingData.").is_err());
}
