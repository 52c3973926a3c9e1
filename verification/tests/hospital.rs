use burrito_minigames::hospital::{
    Burrito, Capsule, Contract, HospitalCall, MsgInput, PromiseOutcome, RecoveryCapsules,
    TransferReply, EPOCH_NANOS,
};

fn hospital() -> Contract {
    Contract::new(
        "owner.testnet".to_string(),
        "treasury.testnet".to_string(),
        1000,
        2,
        "burritos.testnet".to_string(),
        "hospital.testnet".to_string(),
        "strw.testnet".to_string(),
    )
}

fn burrito_with_hp(hp: &str) -> Burrito {
    Burrito {
        owner_id: "alice.testnet".to_string(),
        name: "Burrito".to_string(),
        description: "".to_string(),
        burrito_type: "Fuego".to_string(),
        hp: hp.to_string(),
        attack: "5".to_string(),
        defense: "5".to_string(),
        speed: "5".to_string(),
        win: "0".to_string(),
        global_win: "0".to_string(),
        level: "1".to_string(),
        media: "media".to_string(),
    }
}

fn slot(c: &RecoveryCapsules, n: u64) -> &Capsule {
    match n {
        1 => &c.capsule1,
        2 => &c.capsule2,
        _ => &c.capsule3,
    }
}

/// Runs nft_on_transfer and, where it asks about the burrito, the callback
/// with a burrito without lives; answers whether the burrito went back.
fn enter(h: &mut Contract, player: &str, token: &str, capsule_number: u64, now: u64) -> bool {
    let reply = h.nft_on_transfer(
        "nft.testnet".to_string(),
        player.to_string(),
        token.to_string(),
        MsgInput { capsule_number },
        now,
    );
    match reply {
        TransferReply::Value(back) => back,
        TransferReply::Promise(HospitalCall::InspectBurrito { player, capsules, .. }) => {
            let (back, charge) =
                h.get_burrito_info(player, capsules, PromiseOutcome::Successful(burrito_with_hp("0")));
            assert!(!back);
            assert!(charge.is_some());
            back
        }
        TransferReply::Promise(_) => panic!("unexpected call"),
    }
}

#[test]
fn new_hospital_is_empty() {
    let h = hospital();
    assert_eq!(h.get_strw_cost(), 1000);
    assert_eq!(h.epoch_to_restore, 2);
    let c = h.get_player_capsules("alice.testnet");
    assert_eq!(c.count, 0);
    assert_eq!(c.capsule1.burrito_id, "");
    assert_eq!(c.capsule3.finish_time, 0);
}

#[test]
fn owner_changes_settings() {
    let mut h = hospital();
    assert!(h.assert_owner_calling("owner.testnet").is_ok());
    assert_eq!(h.change_epoch_restore("owner.testnet", 5).unwrap(), "Epocas de restauración actualizadas");
    assert_eq!(h.epoch_to_restore, 5);
    assert_eq!(h.change_strw_cost("owner.testnet", 77).unwrap(), "Costo de capsula actualizado");
    assert_eq!(h.get_strw_cost(), 77);
    assert_eq!(h.change_treasury("owner.testnet", "bank.testnet".to_string()).unwrap(), "Tesorero actualizado");
    assert_eq!(h.treasury_id, "bank.testnet");
    h.change_contracts("owner.testnet", "b2.testnet".to_string(), "h2.testnet".to_string(), "s2.testnet".to_string())
        .unwrap();
    assert_eq!(h.burrito_contract, "b2.testnet");
    assert_eq!(h.hospital_contract, "h2.testnet");
    assert_eq!(h.strw_contract, "s2.testnet");
    h.change_owner("owner.testnet", "boss.testnet".to_string()).unwrap();
    assert_eq!(h.owner_account_id, "boss.testnet");
}

#[test]
fn stranger_is_refused_and_nothing_changes() {
    let mut h = hospital();
    let e = h.change_strw_cost("mallory.testnet", 1).unwrap_err();
    assert_eq!(e.message(), "can only be called by the owner");
    assert_eq!(h.get_strw_cost(), 1000);
    assert!(h.change_epoch_restore("mallory.testnet", 9).is_err());
    assert_eq!(h.epoch_to_restore, 2);
    assert!(h.change_treasury("mallory.testnet", "x.testnet".to_string()).is_err());
    assert_eq!(h.treasury_id, "treasury.testnet");
    assert!(h.change_owner("mallory.testnet", "mallory.testnet".to_string()).is_err());
    assert_eq!(h.owner_account_id, "owner.testnet");
    assert!(h
        .change_contracts("mallory.testnet", "a".to_string(), "b".to_string(), "c".to_string())
        .is_err());
    assert_eq!(h.burrito_contract, "burritos.testnet");
    assert!(h.assert_owner_calling("owner.testnet2").is_err());
}

#[test]
fn log_lines() {
    let h = hospital();
    assert_eq!(
        h.show_contracts(),
        vec![
            "burrito_contract: burritos.testnet".to_string(),
            "hospital_contract: hospital.testnet".to_string(),
            "strw_contract: strw.testnet".to_string(),
        ]
    );
    assert_eq!(
        h.get_contract_info(),
        vec![
            "Owner Account: owner.testnet".to_string(),
            "Treasury Account: treasury.testnet".to_string(),
            "STRW Cost: 1000".to_string(),
            "Epoch To Restore: 2".to_string(),
        ]
    );
}

#[test]
fn capsule_number_out_of_range_sends_burrito_back() {
    let h = hospital();
    for n in [0u64, 4, 99] {
        let r = h.nft_on_transfer(
            "nft.testnet".to_string(),
            "alice.testnet".to_string(),
            "7".to_string(),
            MsgInput { capsule_number: n },
            10,
        );
        assert!(matches!(r, TransferReply::Value(true)));
    }
}

#[test]
fn first_capsule_asks_about_the_burrito() {
    let h = hospital();
    let r = h.nft_on_transfer(
        "nft.testnet".to_string(),
        "alice.testnet".to_string(),
        "7".to_string(),
        MsgInput { capsule_number: 2 },
        1_000,
    );
    match r {
        TransferReply::Promise(HospitalCall::InspectBurrito {
            burrito_contract,
            token_id,
            hospital_contract,
            player,
            capsules,
        }) => {
            assert_eq!(burrito_contract, "burritos.testnet");
            assert_eq!(token_id, "7");
            assert_eq!(hospital_contract, "hospital.testnet");
            assert_eq!(player, "alice.testnet");
            assert_eq!(capsules.count, 1);
            assert_eq!(capsules.capsule1.burrito_id, "");
            assert_eq!(capsules.capsule3.burrito_id, "");
            assert_eq!(capsules.capsule2.burrito_id, "7");
            assert_eq!(capsules.capsule2.burrito_owner, "alice.testnet");
            assert_eq!(capsules.capsule2.burrito_contract, "nft.testnet");
            assert_eq!(capsules.capsule2.start_time, 1_000);
            assert_eq!(capsules.capsule2.finish_time, 1_000 + 2 * 300_000_000_000);
        }
        _ => panic!("expected a lookup"),
    }
}

#[test]
fn burrito_info_decides() {
    let mut h = hospital();
    let caps = || RecoveryCapsules {
        count: 1,
        capsule1: Capsule {
            burrito_id: "7".to_string(),
            burrito_owner: "alice.testnet".to_string(),
            burrito_contract: "nft.testnet".to_string(),
            start_time: 0,
            finish_time: 5,
        },
        capsule2: Capsule::empty(),
        capsule3: Capsule::empty(),
    };
    let (back, call) = h.get_burrito_info("alice.testnet".to_string(), caps(), PromiseOutcome::Failed);
    assert!(back);
    assert!(call.is_none());
    let (back, call) = h.get_burrito_info(
        "alice.testnet".to_string(),
        caps(),
        PromiseOutcome::Successful(burrito_with_hp("3")),
    );
    assert!(back);
    assert!(call.is_none());
    assert_eq!(h.get_player_capsules("alice.testnet").count, 0);
    let (back, call) = h.get_burrito_info(
        "alice.testnet".to_string(),
        caps(),
        PromiseOutcome::Successful(burrito_with_hp("0")),
    );
    assert!(!back);
    match call {
        Some(HospitalCall::ChargeCapsule { strw_contract, player, action, treasury_id, cost }) => {
            assert_eq!(strw_contract, "strw.testnet");
            assert_eq!(player, "alice.testnet");
            assert_eq!(action, "Capsule");
            assert_eq!(treasury_id, "treasury.testnet");
            assert_eq!(cost, 1000);
        }
        _ => panic!("expected a charge"),
    }
    let stored = h.get_player_capsules("alice.testnet");
    assert_eq!(stored.count, 1);
    assert_eq!(stored.capsule1.burrito_id, "7");
}

#[test]
fn three_capsules_at_most_and_occupied_capsule_refused() {
    let mut h = hospital();
    assert!(!enter(&mut h, "alice.testnet", "1", 1, 10));
    assert!(enter(&mut h, "alice.testnet", "2", 1, 10), "capsule 1 is taken");
    assert!(!enter(&mut h, "alice.testnet", "2", 2, 10));
    let c = h.get_player_capsules("alice.testnet");
    assert_eq!(c.count, 2);
    assert_eq!(c.capsule2.burrito_id, "2");
    assert!(!enter(&mut h, "alice.testnet", "3", 3, 10));
    assert_eq!(h.get_player_capsules("alice.testnet").count, 3);
    assert!(enter(&mut h, "alice.testnet", "4", 3, 10), "three capsules in use");
    assert!(enter(&mut h, "alice.testnet", "4", 1, 10), "three capsules in use");
}

#[test]
fn withdraw_refusals() {
    let mut h = hospital();
    let r = h.withdraw_burrito_owner("alice.testnet".to_string(), 1, 10, 1);
    assert!(!r.0.complete);
    assert_eq!(r.0.msg, "No hay ninguna capsula registrada");
    assert_eq!(r.0.burrito_id, "");
    assert!(r.1.is_none());
    assert!(!enter(&mut h, "alice.testnet", "9", 2, 100));
    let r = h.withdraw_burrito_owner("alice.testnet".to_string(), 1, 10, 0);
    assert_eq!(r.0.msg, "No existe la capsula ingresada");
    let r = h.withdraw_burrito_owner("alice.testnet".to_string(), 1, 10, 4);
    assert_eq!(r.0.msg, "No existe la capsula ingresada");
    let r = h.withdraw_burrito_owner("alice.testnet".to_string(), 1, 10, 1);
    assert_eq!(r.0.msg, "No hay burrito en la capsula 1");
    let r = h.withdraw_burrito_owner("alice.testnet".to_string(), 1, 10, 3);
    assert_eq!(r.0.msg, "No hay burrito en la capsula 3");
    let finish = 100 + 2 * EPOCH_NANOS;
    let r = h.withdraw_burrito_owner("alice.testnet".to_string(), 1, finish - 1, 2);
    assert!(!r.0.complete);
    assert_eq!(r.0.msg, "Aún no finaliza el tiempo de restauración");
    assert!(r.1.is_none());
    assert_eq!(h.get_player_capsules("alice.testnet").count, 1);
}

#[test]
fn withdraw_of_another_owner_refused() {
    let mut h = hospital();
    let stolen = RecoveryCapsules {
        count: 1,
        capsule1: Capsule {
            burrito_id: "5".to_string(),
            burrito_owner: "bob.testnet".to_string(),
            burrito_contract: "nft.testnet".to_string(),
            start_time: 0,
            finish_time: 0,
        },
        capsule2: Capsule::empty(),
        capsule3: Capsule::empty(),
    };
    h.get_burrito_info("alice.testnet".to_string(), stolen, PromiseOutcome::Successful(burrito_with_hp("0")));
    let r = h.withdraw_burrito_owner("alice.testnet".to_string(), 1, 10, 1);
    assert!(!r.0.complete);
    assert_eq!(r.0.msg, "No eres el dueño del burrito");
    assert_eq!(h.get_player_capsules("alice.testnet").capsule1.burrito_id, "5");
}

#[test]
fn withdraw_restores_and_returns() {
    let mut h = hospital();
    assert!(!enter(&mut h, "alice.testnet", "9", 2, 100));
    let finish = 100 + 2 * EPOCH_NANOS;
    let (claim, call) = h.withdraw_burrito_owner("alice.testnet".to_string(), 1, finish, 2);
    assert!(claim.complete);
    assert_eq!(claim.msg, "El burrito recuperó sus vidas");
    assert_eq!(claim.burrito_id, "9");
    match call {
        Some(HospitalCall::RestoreAndReturn { burrito_contract, burrito_id, nft_contract, receiver_id, deposit }) => {
            assert_eq!(burrito_contract, "burritos.testnet");
            assert_eq!(burrito_id, "9");
            assert_eq!(nft_contract, "nft.testnet");
            assert_eq!(receiver_id, "alice.testnet");
            assert_eq!(deposit, 1);
        }
        _ => panic!("expected restore"),
    }
    let c = h.get_player_capsules("alice.testnet");
    assert_eq!(c.count, 0);
    assert_eq!(c.capsule2.burrito_id, "");
    assert_eq!(c.capsule2.finish_time, 0);
}

#[test]
fn entry_then_withdraw_leaves_capsules_as_before() {
    let mut h = hospital();
    assert!(!enter(&mut h, "alice.testnet", "1", 1, 50));
    let before = h.get_player_capsules("alice.testnet");
    assert!(!enter(&mut h, "alice.testnet", "2", 3, 60));
    let during = h.get_player_capsules("alice.testnet");
    assert_eq!(during.count, 2);
    let r = h.withdraw_burrito_owner("alice.testnet".to_string(), 1, 60 + 2 * EPOCH_NANOS, 3);
    assert!(r.0.complete);
    let after = h.get_player_capsules("alice.testnet");
    assert_eq!(after.count, before.count);
    for n in 1..=3 {
        assert_eq!(slot(&after, n).burrito_id, slot(&before, n).burrito_id);
        assert_eq!(slot(&after, n).burrito_owner, slot(&before, n).burrito_owner);
        assert_eq!(slot(&after, n).burrito_contract, slot(&before, n).burrito_contract);
        assert_eq!(slot(&after, n).start_time, slot(&before, n).start_time);
        assert_eq!(slot(&after, n).finish_time, slot(&before, n).finish_time);
    }
}

#[test]
fn count_follows_capsules_in_use() {
    let mut h = hospital();
    for (i, n) in [3u64, 1, 2].iter().enumerate() {
        assert!(!enter(&mut h, "alice.testnet", &format!("{}", i + 10), *n, 0));
        let c = h.get_player_capsules("alice.testnet");
        let in_use = [&c.capsule1, &c.capsule2, &c.capsule3].iter().filter(|x| !x.burrito_id.is_empty()).count();
        assert_eq!(c.count as usize, in_use);
    }
    h.withdraw_burrito_owner("alice.testnet".to_string(), 0, 2 * EPOCH_NANOS, 1);
    let c = h.get_player_capsules("alice.testnet");
    assert_eq!(c.count, 2);
    assert_eq!(c.capsule1.burrito_id, "");
}

#[test]
fn delete_all_capsules_forgets_everyone() {
    let mut h = hospital();
    assert!(!enter(&mut h, "alice.testnet", "1", 1, 0));
    assert!(!enter(&mut h, "bob.testnet", "2", 1, 0));
    h.delete_all_capsules();
    assert_eq!(h.get_player_capsules("alice.testnet").count, 0);
    assert_eq!(h.get_player_capsules("bob.testnet").capsule1.burrito_id, "");
}

#[test]
fn try_withdraw_checks_owner_is_an_account() {
    let mut h = hospital();
    let odd = RecoveryCapsules {
        count: 1,
        capsule1: Capsule {
            burrito_id: "5".to_string(),
            burrito_owner: "Not An Account".to_string(),
            burrito_contract: "nft.testnet".to_string(),
            start_time: 0,
            finish_time: 0,
        },
        capsule2: Capsule::empty(),
        capsule3: Capsule::empty(),
    };
    h.get_burrito_info("alice.testnet".to_string(), odd, PromiseOutcome::Successful(burrito_with_hp("0")));
    assert!(h.try_withdraw_burrito_owner("alice.testnet".to_string(), 1, 10, 1).is_none());
    assert_eq!(h.get_player_capsules("alice.testnet").count, 1);
    assert!(!enter(&mut h, "bob.testnet", "6", 1, 0));
    let r = h.try_withdraw_burrito_owner("bob.testnet".to_string(), 1, 2 * EPOCH_NANOS, 1).unwrap();
    assert!(r.0.complete);
    let r = h.try_withdraw_burrito_owner("bob.testnet".to_string(), 1, 2 * EPOCH_NANOS, 2).unwrap();
    assert_eq!(r.0.msg, "No hay burrito en la capsula 2");
}

#[test]
fn try_withdraw_refuses_zero_count() {
    let mut h = hospital();
    let broken = RecoveryCapsules {
        count: 0,
        capsule1: Capsule {
            burrito_id: "5".to_string(),
            burrito_owner: "alice.testnet".to_string(),
            burrito_contract: "nft.testnet".to_string(),
            start_time: 0,
            finish_time: 0,
        },
        capsule2: Capsule::empty(),
        capsule3: Capsule::empty(),
    };
    h.get_burrito_info("alice.testnet".to_string(), broken, PromiseOutcome::Successful(burrito_with_hp("0")));
    assert!(h.try_withdraw_burrito_owner("alice.testnet".to_string(), 1, 10, 1).is_none());
    assert_eq!(h.get_player_capsules("alice.testnet").capsule1.burrito_id, "5");
}

#[test]
fn try_withdraw_checks_contracts_are_accounts() {
    let mut h = hospital();
    assert!(!enter(&mut h, "alice.testnet", "7", 2, 0));
    h.change_contracts(
        "owner.testnet",
        "Bad Burritos".to_string(),
        "hospital.testnet".to_string(),
        "strw.testnet".to_string(),
    )
    .unwrap();
    // Refused withdrawals never reach the contract names.
    let r = h.try_withdraw_burrito_owner("alice.testnet".to_string(), 1, 0, 2).unwrap();
    assert_eq!(r.0.msg, "Aún no finaliza el tiempo de restauración");
    // A granted one would address the burrito contract, and cannot.
    assert!(h.try_withdraw_burrito_owner("alice.testnet".to_string(), 1, 2 * EPOCH_NANOS, 2).is_none());
    assert_eq!(h.get_player_capsules("alice.testnet").capsule2.burrito_id, "7");
    h.change_contracts(
        "owner.testnet",
        "burritos.testnet".to_string(),
        "hospital.testnet".to_string(),
        "strw.testnet".to_string(),
    )
    .unwrap();
    let r = h.try_withdraw_burrito_owner("alice.testnet".to_string(), 1, 2 * EPOCH_NANOS, 2).unwrap();
    assert!(r.0.complete);
    assert_eq!(r.0.burrito_id, "7");
}
