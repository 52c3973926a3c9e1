use burrito_minigames::incursion::{
    BPvsMB, Burrito, BurritoPlayer, Contract, IncursionError, IncursionStatus, MsgInput, Player,
    PromiseOutcome, COOLDOWN_NANOS, DAY_NANOS, HALF_DAY_NANOS, HOUR_NANOS, TWO_HOURS_NANOS,
};
use burrito_minigames::incursion_play::{
    AttackScale, IncursionCall, IncursionReply, StrikeOutcome, StrikeRequest,
};

const T0: u64 = 1_000_000;

fn depleted(h: &String) -> bool {
    h.parse::<f32>().unwrap() <= 0.0
}

fn standing(h: &String) -> bool {
    h.parse::<f32>().unwrap() > 0.0
}

fn alive(h: &String) -> bool {
    h.parse::<f32>().unwrap() >= 0.0
}

fn strike(q: &StrikeRequest) -> StrikeOutcome {
    let atk: f32 = q.attack.parse::<f32>().unwrap();
    let rand = q.rand as f32;
    let mult: f32 = match q.scale {
        AttackScale::Tenths => rand * 0.1,
        AttackScale::Hundredths => rand * 0.01,
        AttackScale::Thousandths => rand * 0.001,
        AttackScale::Zero => 0.0,
    };
    let type_mult = if q.advantage { (atk * mult) * 0.25 } else { 0.0 };
    let mut attack = (atk * mult) + type_mult;
    if attack < 1.0 {
        attack += 2.0;
    }
    attack += 3.0;
    if q.strong {
        attack = attack * 2.0;
    }
    attack = (attack * 100.0).round() / 100.0;
    let new_health = q.defender_health.parse::<f32>().unwrap() - attack;
    StrikeOutcome {
        new_health: new_health.to_string(),
        defender_down: new_health <= 0.0,
        damage_player: (f32::from_bits(q.damage_player) + attack).to_bits(),
    }
}

fn contract() -> Contract {
    Contract::new(
        "owner.testnet".to_string(),
        "treasury.testnet".to_string(),
        "burritos.testnet".to_string(),
        "incursion.testnet".to_string(),
        "strw.testnet".to_string(),
    )
}

fn burrito(hp: &str, burrito_type: &str, attack: &str, defense: &str, speed: &str) -> Burrito {
    Burrito {
        owner_id: "alice.testnet".to_string(),
        name: "Burrito Azul".to_string(),
        description: "".to_string(),
        burrito_type: burrito_type.to_string(),
        hp: hp.to_string(),
        attack: attack.to_string(),
        defense: defense.to_string(),
        speed: speed.to_string(),
        win: "0".to_string(),
        global_win: "0".to_string(),
        level: "3".to_string(),
        media: "pic.png".to_string(),
    }
}

/// A contract with incursion 1 created at T0 and `player` registered with
/// token `token`.
fn with_registered(player: &str, token: &str) -> Contract {
    let mut c = contract();
    c.create_incursion(T0, &vec![1, 2, 3]).unwrap();
    register(&mut c, player, token);
    c
}

fn register(c: &mut Contract, player: &str, token: &str) {
    let reply = c.nft_on_transfer(
        "nft.testnet".to_string(),
        player.to_string(),
        token.to_string(),
        MsgInput { incursion_id: 1 },
    );
    let (incursion, p, contract_id) = match reply {
        IncursionReply::Promise(IncursionCall::InspectBurrito { incursion, player, contract_id, .. }) => {
            (incursion, player, contract_id)
        }
        _ => panic!("expected a lookup"),
    };
    let reply = c.get_burrito_info(
        incursion,
        p,
        contract_id,
        PromiseOutcome::Successful(burrito("2", "Agua", "10", "20", "16")),
    );
    match reply {
        IncursionReply::Promise(IncursionCall::ChargeAndRegister { incursion, player, contract_id, .. }) => {
            assert!(!c.register_player_incursion(incursion, player, contract_id));
        }
        _ => panic!("expected a charge"),
    }
}

/// Opens the battle room of `player` inside the incursion's time.
fn open_room(c: &mut Contract, player: &str, b: Burrito) -> BPvsMB {
    let reply = c.create_battle_room(player.to_string(), T0 + HOUR_NANOS, depleted).unwrap();
    match reply {
        IncursionReply::Promise(IncursionCall::FetchBattleBurrito { player: p, incursion, player_id, .. }) => {
            c.save_battle_room(p, incursion, player_id, PromiseOutcome::Successful(b))
        }
        _ => panic!("expected a fetch"),
    }
}

fn room_of(c: &Contract, player: &str) -> BPvsMB {
    c.get_active_battle_room(player).unwrap().room
}

fn set_room(c: &mut Contract, player: &str, room: BPvsMB) {
    c.mb_vs_bp.insert(player.to_string(), room);
}

fn in_fight() -> u64 {
    T0 + HOUR_NANOS + 1
}

#[test]
fn admin_is_owner_only() {
    let mut c = contract();
    assert_eq!(c.change_owner("bob.testnet", "bob.testnet".to_string()), Err(IncursionError::NotOwner));
    assert_eq!(c.owner_account_id, "owner.testnet");
    assert!(c.change_treasury("bob.testnet", "t".to_string()).is_err());
    assert!(c.change_contracts("bob.testnet", "a".to_string(), "b".to_string(), "c".to_string()).is_err());
    assert!(c.delete_all_incursions("bob.testnet").is_err());
    c.change_treasury("owner.testnet", "t2.testnet".to_string()).unwrap();
    assert_eq!(c.treasury_id, "t2.testnet");
    c.change_contracts("owner.testnet", "a".to_string(), "b".to_string(), "c".to_string()).unwrap();
    assert_eq!(c.show_contracts(), vec![
        "burrito_contract: a".to_string(),
        "incursion_contract: b".to_string(),
        "strw_contract: c".to_string()
    ]);
    c.change_owner("owner.testnet", "bob.testnet".to_string()).unwrap();
    assert_eq!(c.owner_account_id, "bob.testnet");
}

#[test]
fn error_messages() {
    let all = [
        (IncursionError::NotOwner, "Method is private to owner"),
        (IncursionError::TooSoon, "Aún no pasan 30 horas desde la última incursión"),
        (IncursionError::RoomExists, "Ya tienes una incursion iniciada, debes terminarla"),
        (IncursionError::MegaBurritoDefeated, "El megaburrito ya fue vencido"),
        (IncursionError::NotStarted, "Aún no inicia la incursión"),
        (IncursionError::AlreadyFinished, "Ya terminó la incursión"),
        (IncursionError::NoRoom, "No existe sala creada de esta cuenta"),
        (IncursionError::NoActiveBattle, "No tienes una batalla activa"),
        (IncursionError::MustDefend, "No puedes realizar un ataque, debes elegir si defenderte o no"),
        (IncursionError::MustAttack, "No puedes defenderte, debes realizar un ataque"),
        (IncursionError::NoStrongAttacks, "No tienes mas ataques fuertes, debes realizar uno normal"),
        (IncursionError::NoShields, "No tienes mas escudos, no puedes defenderte"),
    ];
    for (e, m) in all {
        assert_eq!(e.message(), m);
    }
}

#[test]
fn first_incursion() {
    let mut c = contract();
    assert_eq!(c.show_last_id(), 0);
    let inc = c.create_incursion(T0, &vec![90, 7, 20, 4]).unwrap();
    assert_eq!(inc.id, 1);
    assert_eq!(inc.status, IncursionStatus::WaitingPlayers);
    assert_eq!(inc.create_time, T0);
    assert_eq!(inc.start_time, T0 + 3_600_000_000_000);
    assert_eq!(inc.finish_time, T0 + 7_200_000_000_000);
    assert_eq!(inc.players_number, 10);
    assert_eq!(inc.registered_players, 0);
    assert_eq!(inc.win, "");
    assert!(inc.players.is_empty());
    assert_eq!(inc.rewards, 80000);
    assert_eq!(inc.mega_burrito.name, "Hades");
    assert_eq!(inc.mega_burrito.burrito_type, "Fuego");
    assert_eq!(inc.mega_burrito.health, "100");
    assert_eq!(inc.mega_burrito.start_health, "100");
    assert_eq!(inc.mega_burrito.attack, "15");
    assert_eq!(inc.mega_burrito.defense, "15");
    assert_eq!(inc.mega_burrito.speed, "15");
    assert_eq!(inc.mega_burrito.level, "40");
    assert_eq!(c.show_last_id(), 1);
    assert_eq!(c.get_active_incursion(T0).id, 1);
}

#[test]
fn names_and_rewards_by_random_byte() {
    let cases = [
        (0u8, 0u8, "Cerberus", 0u64),
        (1, 1, "Cerberus", 70000),
        (85, 17, "Cerberus", 70000),
        (86, 18, "Hades", 80000),
        (170, 35, "Hades", 80000),
        (171, 36, "Mictlantecuhtli", 90000),
        (254, 233, "Mictlantecuhtli", 190000),
        (255, 234, "Cerberus", 200000),
        (100, 254, "Hades", 200000),
        (100, 255, "Hades", 0),
    ];
    for (name_byte, reward_byte, name, reward) in cases {
        let mut c = contract();
        let inc = c.create_incursion(T0, &vec![name_byte, 0, reward_byte]).unwrap();
        assert_eq!(inc.mega_burrito.name, name, "byte {}", name_byte);
        assert_eq!(inc.rewards, reward, "byte {}", reward_byte);
    }
}

#[test]
fn reward_pool_between_bounds() {
    for b in 0..=255u8 {
        let mut c = contract();
        let r = c.create_incursion(T0, &vec![0, 0, b]).unwrap().rewards;
        if b == 0 || b == 255 {
            assert_eq!(r, 0);
        } else {
            assert!((70000..=200000).contains(&r));
            assert_eq!(r % 10000, 0);
        }
    }
}

#[test]
fn next_incursion_waits_thirty_hours() {
    let mut c = contract();
    let first = c.create_incursion(T0, &vec![0, 0, 0]).unwrap();
    let limit = first.finish_time + COOLDOWN_NANOS;
    let e = c.create_incursion(limit, &vec![0, 0, 0]).unwrap_err();
    assert_eq!(e, IncursionError::TooSoon);
    assert_eq!(c.show_last_id(), 1);
    let second = c.create_incursion(limit + 1, &vec![0, 0, 0]).unwrap();
    assert_eq!(second.id, 2);
    assert_eq!(second.mega_burrito.health, "200");
    assert_eq!(second.mega_burrito.start_health, "200");
    assert_eq!(c.show_last_id(), 2);
}

#[test]
fn active_incursion_placeholder() {
    let c = contract();
    let inc = c.get_active_incursion(500);
    assert_eq!(inc.id, 0);
    assert_eq!(inc.status, IncursionStatus::Null);
    assert_eq!(inc.create_time, 500);
    assert_eq!(inc.start_time, 500 + HOUR_NANOS);
    assert_eq!(inc.finish_time, 500 + TWO_HOURS_NANOS);
    assert_eq!(inc.players_number, 0);
    assert_eq!(inc.mega_burrito.name, "");
    assert_eq!(inc.rewards, 0);
}

#[test]
fn start_and_finish_move_status_forward() {
    let mut c = contract();
    assert!(c.start_active_incursion("bob.testnet", 5).is_err());
    let none = c.start_active_incursion("owner.testnet", 5).unwrap();
    assert_eq!(none.status, IncursionStatus::Null);
    assert_eq!(none.start_time, 5 + HALF_DAY_NANOS);
    assert_eq!(none.finish_time, 5 + DAY_NANOS);
    c.create_incursion(T0, &vec![0, 0, 0]).unwrap();
    let started = c.start_active_incursion("owner.testnet", 5).unwrap();
    assert_eq!(started.id, 1);
    assert_eq!(started.status, IncursionStatus::InProgress);
    assert_eq!(c.get_active_incursion(5).status, IncursionStatus::InProgress);
    assert_eq!(c.start_active_incursion("owner.testnet", 5).unwrap().status, IncursionStatus::Null);
    assert!(c.finish_active_incursion("bob.testnet", 5).is_err());
    let finished = c.finish_active_incursion("owner.testnet", 5).unwrap();
    assert_eq!(finished.id, 1);
    assert_eq!(finished.status, IncursionStatus::Finished);
    assert_eq!(c.get_active_incursion(5).status, IncursionStatus::Finished);
    assert_eq!(c.finish_active_incursion("owner.testnet", 5).unwrap().status, IncursionStatus::Null);
}

#[test]
fn delete_all_starts_over() {
    let mut c = with_registered("alice.testnet", "7");
    c.delete_all_incursions("owner.testnet").unwrap();
    assert_eq!(c.show_last_id(), 0);
    assert!(!c.can_withdraw_burrito("alice.testnet"));
    assert_eq!(c.get_active_incursion(1).id, 0);
    let again = c.create_incursion(T0, &vec![0, 0, 0]).unwrap();
    assert_eq!(again.id, 1);
    assert_eq!(again.mega_burrito.health, "100");
}

#[test]
fn transfer_to_unknown_or_full_incursion_goes_back() {
    let mut c = contract();
    let r = c.nft_on_transfer("nft.testnet".to_string(), "a.testnet".to_string(), "1".to_string(), MsgInput { incursion_id: 1 });
    assert!(matches!(r, IncursionReply::Value(true)));
    c.create_incursion(T0, &vec![0, 0, 0]).unwrap();
    for i in 0..10 {
        register(&mut c, &format!("p{}.testnet", i), &format!("{}", i));
    }
    assert_eq!(c.get_active_incursion(0).registered_players, 10);
    let r = c.nft_on_transfer("nft.testnet".to_string(), "late.testnet".to_string(), "99".to_string(), MsgInput { incursion_id: 1 });
    assert!(matches!(r, IncursionReply::Value(true)));
}

#[test]
fn player_registers_once() {
    let c = with_registered("alice.testnet", "7");
    let r = c.nft_on_transfer("nft.testnet".to_string(), "alice.testnet".to_string(), "8".to_string(), MsgInput { incursion_id: 1 });
    assert!(matches!(r, IncursionReply::Value(true)));
    let r = c.nft_on_transfer("nft.testnet".to_string(), "bob.testnet".to_string(), "8".to_string(), MsgInput { incursion_id: 1 });
    match r {
        IncursionReply::Promise(IncursionCall::InspectBurrito { burrito_contract, token_id, incursion_contract, incursion, player, contract_id }) => {
            assert_eq!(burrito_contract, "burritos.testnet");
            assert_eq!(token_id, "8");
            assert_eq!(incursion_contract, "incursion.testnet");
            assert_eq!(incursion.id, 1);
            assert_eq!(player.burrito_id, "8");
            assert_eq!(player.burrito_owner, "bob.testnet");
            assert_eq!(contract_id, "nft.testnet");
        }
        _ => panic!("expected a lookup"),
    }
}

#[test]
fn burrito_info_callback() {
    let mut c = contract();
    let inc = c.create_incursion(T0, &vec![0, 0, 0]).unwrap();
    let p = || BurritoPlayer { burrito_id: "7".to_string(), burrito_owner: "alice.testnet".to_string() };
    let r = c.get_burrito_info(inc.duplicate(), p(), "nft.testnet".to_string(), PromiseOutcome::Failed);
    assert!(matches!(r, IncursionReply::Value(true)));
    let r = c.get_burrito_info(inc.duplicate(), p(), "nft.testnet".to_string(), PromiseOutcome::Successful(burrito("0", "Agua", "1", "1", "1")));
    assert!(matches!(r, IncursionReply::Value(true)));
    let r = c.get_burrito_info(inc.duplicate(), p(), "nft.testnet".to_string(), PromiseOutcome::Successful(burrito("1", "Agua", "1", "1", "1")));
    match r {
        IncursionReply::Promise(IncursionCall::ChargeAndRegister { strw_contract, account_id, action, treasury_id, incursion_contract, incursion, player, contract_id }) => {
            assert_eq!(strw_contract, "strw.testnet");
            assert_eq!(account_id, "alice.testnet");
            assert_eq!(action, "Incursion");
            assert_eq!(treasury_id, "treasury.testnet");
            assert_eq!(incursion_contract, "incursion.testnet");
            assert_eq!(incursion.id, 1);
            assert_eq!(player.burrito_id, "7");
            assert_eq!(contract_id, "nft.testnet");
        }
        _ => panic!("expected a charge"),
    }
}

#[test]
fn registration_is_recorded() {
    let c = with_registered("alice.testnet", "7");
    assert!(c.can_withdraw_burrito("alice.testnet"));
    assert!(!c.can_withdraw_burrito("bob.testnet"));
    let ip = c.get_player_incursion("alice.testnet", 0);
    assert_eq!(ip.incursion.id, 1);
    assert_eq!(ip.incursion.registered_players, 1);
    assert_eq!(ip.incursion.players.len(), 1);
    assert_eq!(ip.incursion.players[0].burrito_owner, "alice.testnet");
    assert_eq!(ip.player.incursion_id, 1);
    assert_eq!(ip.player.burrito_id, "7");
    assert_eq!(ip.player.burrito_owner, "alice.testnet");
    assert_eq!(ip.player.burrito_contract, "nft.testnet");
    let none = c.get_player_incursion("bob.testnet", 9);
    assert_eq!(none.incursion.id, 0);
    assert_eq!(none.incursion.status, IncursionStatus::Null);
    assert_eq!(none.incursion.start_time, 9 + HOUR_NANOS);
    assert_eq!(none.player.incursion_id, 0);
    assert_eq!(none.player.burrito_id, "");
}

#[test]
fn battle_room_opening() {
    let mut c = with_registered("alice.testnet", "7");
    let r = c.create_battle_room("bob.testnet".to_string(), in_fight(), depleted).unwrap();
    match r {
        IncursionReply::Value(room) => {
            assert_eq!(room.turn, "");
            assert_eq!(room.incursion_id, 0);
            assert_eq!(room.damage_player, 0);
        }
        _ => panic!("expected the empty room"),
    }
    assert_eq!(c.create_battle_room("alice.testnet".to_string(), T0, depleted).unwrap_err(), IncursionError::NotStarted);
    assert_eq!(
        c.create_battle_room("alice.testnet".to_string(), T0 + TWO_HOURS_NANOS + 1, depleted).unwrap_err(),
        IncursionError::AlreadyFinished
    );
    match c.create_battle_room("alice.testnet".to_string(), in_fight(), depleted).unwrap() {
        IncursionReply::Promise(IncursionCall::FetchBattleBurrito { burrito_contract, burrito_id, incursion_contract, player, incursion, player_id }) => {
            assert_eq!(burrito_contract, "burritos.testnet");
            assert_eq!(burrito_id, "7");
            assert_eq!(incursion_contract, "incursion.testnet");
            assert_eq!(player.burrito_owner, "alice.testnet");
            assert_eq!(incursion.id, 1);
            assert_eq!(player_id, "alice.testnet");
        }
        _ => panic!("expected a fetch"),
    }
    assert!(!c.is_in_battle_incursion("alice.testnet"));
    assert_eq!(c.get_active_battle_room("alice.testnet").unwrap_err(), IncursionError::NoRoom);
    let room = open_room(&mut c, "alice.testnet", burrito("2", "Agua", "10", "20", "16"));
    assert!(c.is_in_battle_incursion("alice.testnet"));
    assert_eq!(room.start_health, "46");
    assert_eq!(room.health, "46");
    assert_eq!(room.turn, "Player");
    assert_eq!(room.burrito_player_id, "7");
    assert_eq!(room.name, "Burrito Azul");
    assert_eq!(room.burrito_type, "Agua");
    assert_eq!(room.hp, "2");
    assert_eq!(room.strong_attack_player, "3");
    assert_eq!(room.shields_player, "3");
    assert_eq!(room.strong_attack_cpu, "3");
    assert_eq!(room.shields_cpu, "3");
    assert_eq!(room.incursion_id, 1);
    assert_eq!(room.media, "pic.png");
    assert_eq!(room.damage_player, 0);
    let round = c.get_active_battle_room("alice.testnet").unwrap();
    assert_eq!(round.room.health, "46");
    assert_eq!(round.incursion.id, 1);
    assert_eq!(c.create_battle_room("alice.testnet".to_string(), in_fight(), depleted).unwrap_err(), IncursionError::RoomExists);
}

#[test]
fn slower_burrito_lets_the_mega_burrito_begin() {
    let mut c = with_registered("alice.testnet", "7");
    let room = open_room(&mut c, "alice.testnet", burrito("2", "Agua", "10", "20", "14"));
    assert_eq!(room.turn, "CPU");
    let mut c = with_registered("alice.testnet", "7");
    let room = open_room(&mut c, "alice.testnet", burrito("2", "Agua", "10", "20", "15"));
    assert_eq!(room.turn, "Player");
}

#[test]
fn failed_lookup_saves_no_room() {
    let mut c = with_registered("alice.testnet", "7");
    let player = Player { incursion_id: 1, burrito_id: "7".to_string(), burrito_owner: "alice.testnet".to_string(), burrito_contract: "nft.testnet".to_string() };
    let inc = c.get_active_incursion(0);
    let room = c.save_battle_room(player, inc, "alice.testnet".to_string(), PromiseOutcome::Failed);
    assert_eq!(room.turn, "");
    assert!(!c.is_in_battle_incursion("alice.testnet"));
}

#[test]
fn no_room_to_fight_in() {
    let mut c = with_registered("alice.testnet", "7");
    let e = c.battle_player_incursion(&"alice.testnet".to_string(), in_fight(), &vec![2], &"1".to_string(), depleted, strike).unwrap_err();
    assert_eq!(e, IncursionError::NoActiveBattle);
}

#[test]
fn moves_must_fit_the_turn() {
    let mut c = with_registered("alice.testnet", "7");
    open_room(&mut c, "alice.testnet", burrito("2", "Agua", "10", "20", "16"));
    let me = "alice.testnet".to_string();
    for m in ["3", "4"] {
        assert_eq!(c.battle_player_incursion(&me, in_fight(), &vec![2], &m.to_string(), depleted, strike).unwrap_err(), IncursionError::MustAttack);
    }
    let mut room = room_of(&c, "alice.testnet");
    room.strong_attack_player = "0".to_string();
    set_room(&mut c, "alice.testnet", room);
    assert_eq!(c.battle_player_incursion(&me, in_fight(), &vec![2], &"2".to_string(), depleted, strike).unwrap_err(), IncursionError::NoStrongAttacks);
    let mut room = room_of(&c, "alice.testnet");
    room.turn = "CPU".to_string();
    room.shields_player = "0".to_string();
    set_room(&mut c, "alice.testnet", room);
    for m in ["1", "2"] {
        assert_eq!(c.battle_player_incursion(&me, in_fight(), &vec![2], &m.to_string(), depleted, strike).unwrap_err(), IncursionError::MustDefend);
    }
    assert_eq!(c.battle_player_incursion(&me, in_fight(), &vec![2], &"4".to_string(), depleted, strike).unwrap_err(), IncursionError::NoShields);
    assert_eq!(room_of(&c, "alice.testnet").turn, "CPU");
}

#[test]
fn player_attack_hits_the_mega_burrito() {
    let mut c = with_registered("alice.testnet", "7");
    open_room(&mut c, "alice.testnet", burrito("2", "Agua", "10", "20", "16"));
    let me = "alice.testnet".to_string();
    // byte 50: a hundredth of 50 is 0.5; water beats fire: 5 + 1.25 + 3.
    let round = c.battle_player_incursion(&me, in_fight(), &vec![50], &"1".to_string(), depleted, strike).unwrap();
    assert_eq!(round.incursion.mega_burrito.health, "90.75");
    assert_eq!(round.room.turn, "CPU");
    assert_eq!(f32::from_bits(round.room.damage_player), 9.25);
    assert_eq!(round.room.strong_attack_player, "3");
    assert_eq!(c.get_active_incursion(0).mega_burrito.health, "90.75");
    assert_eq!(room_of(&c, "alice.testnet").turn, "CPU");
}

#[test]
fn strong_attack_spends_one_and_doubles() {
    let mut c = with_registered("alice.testnet", "7");
    open_room(&mut c, "alice.testnet", burrito("2", "Agua", "10", "20", "16"));
    let me = "alice.testnet".to_string();
    let round = c.battle_player_incursion(&me, in_fight(), &vec![50], &"2".to_string(), depleted, strike).unwrap();
    assert_eq!(round.room.strong_attack_player, "2");
    assert_eq!(round.incursion.mega_burrito.health, "81.5");
    assert_eq!(f32::from_bits(round.room.damage_player), 18.5);
}

#[test]
fn mega_burrito_shield_blocks_on_odd_byte() {
    let mut c = with_registered("alice.testnet", "7");
    open_room(&mut c, "alice.testnet", burrito("2", "Agua", "10", "20", "16"));
    let me = "alice.testnet".to_string();
    let round = c.battle_player_incursion(&me, in_fight(), &vec![51], &"2".to_string(), depleted, strike).unwrap();
    assert_eq!(round.room.shields_cpu, "2");
    assert_eq!(round.room.turn, "CPU");
    assert_eq!(round.room.strong_attack_player, "2");
    assert_eq!(round.incursion.mega_burrito.health, "100");
    assert_eq!(round.room.damage_player, 0);
    assert_eq!(room_of(&c, "alice.testnet").shields_cpu, "2");
}

#[test]
fn mega_burrito_turn() {
    let mut c = with_registered("alice.testnet", "7");
    open_room(&mut c, "alice.testnet", burrito("2", "Agua", "10", "20", "14"));
    let me = "alice.testnet".to_string();
    // Byte 40: 15 * 0.4 = 6, fire has no edge over water; 6 + 3 = 9.
    let round = c.battle_player_incursion(&me, in_fight(), &vec![40], &"3".to_string(), depleted, strike).unwrap();
    assert_eq!(round.room.health, "35");
    assert_eq!(round.room.turn, "Player");
    assert_eq!(round.room.strong_attack_cpu, "3");
    assert_eq!(round.room.damage_player, 0);
    assert_eq!(round.incursion.mega_burrito.health, "100");
    // The player defends: a shield is spent and the mega burrito strikes
    // strongly on an odd byte.
    let mut room = room_of(&c, "alice.testnet");
    room.turn = "CPU".to_string();
    set_room(&mut c, "alice.testnet", room);
    let round = c.battle_player_incursion(&me, in_fight(), &vec![41], &"4".to_string(), depleted, strike).unwrap();
    assert_eq!(round.room.shields_player, "2");
    assert_eq!(round.room.strong_attack_cpu, "2");
    assert_eq!(round.room.turn, "Player");
    assert_eq!(round.room.health, "35");
}

#[test]
fn mega_burrito_strikes_strongly_without_player_shields() {
    let mut c = with_registered("alice.testnet", "7");
    open_room(&mut c, "alice.testnet", burrito("2", "Agua", "10", "20", "14"));
    let mut room = room_of(&c, "alice.testnet");
    room.shields_player = "0".to_string();
    set_room(&mut c, "alice.testnet", room);
    let me = "alice.testnet".to_string();
    let round = c.battle_player_incursion(&me, in_fight(), &vec![40], &"3".to_string(), depleted, strike).unwrap();
    assert_eq!(round.room.strong_attack_cpu, "2");
    assert_eq!(round.room.health, "26");
}

#[test]
fn felling_the_mega_burrito_ends_the_incursion() {
    let mut c = with_registered("alice.testnet", "7");
    open_room(&mut c, "alice.testnet", burrito("2", "Agua", "10", "20", "16"));
    let mut inc = c.incursions.get(&1).unwrap().duplicate();
    inc.mega_burrito.health = "5".to_string();
    c.incursions.insert(1, inc);
    let me = "alice.testnet".to_string();
    let now = in_fight() + 7;
    let round = c.battle_player_incursion(&me, now, &vec![50], &"1".to_string(), depleted, strike).unwrap();
    assert_eq!(round.incursion.mega_burrito.health, "-4.25");
    assert_eq!(round.incursion.finish_time, now);
    assert_eq!(round.room.turn, "Player");
    assert_eq!(c.get_active_incursion(0).finish_time, now);
    let again = c.battle_player_incursion(&me, now, &vec![50], &"1".to_string(), depleted, strike).unwrap();
    assert_eq!(again.incursion.mega_burrito.health, "-4.25");
    assert_eq!(f32::from_bits(again.room.damage_player), 9.25);
    let later = c.battle_player_incursion(&me, now + 1, &vec![50], &"3".to_string(), depleted, strike).unwrap();
    assert_eq!(later.room.turn, "Player");
}

#[test]
fn battle_after_the_end_changes_nothing() {
    let mut c = with_registered("alice.testnet", "7");
    open_room(&mut c, "alice.testnet", burrito("2", "Agua", "10", "20", "16"));
    let me = "alice.testnet".to_string();
    let after = T0 + TWO_HOURS_NANOS + 1;
    let round = c.battle_player_incursion(&me, after, &vec![50], &"3".to_string(), depleted, strike).unwrap();
    assert_eq!(round.room.health, "46");
    assert_eq!(round.incursion.mega_burrito.health, "100");
    assert_eq!(room_of(&c, "alice.testnet").turn, "Player");
}

#[test]
fn counters_never_grow_and_turns_alternate() {
    let mut c = with_registered("alice.testnet", "7");
    open_room(&mut c, "alice.testnet", burrito("2", "Agua", "30", "50", "16"));
    let me = "alice.testnet".to_string();
    let bytes = [3u8, 50, 51, 7, 120, 9, 200, 255, 11, 64, 33, 98, 101, 2, 77, 5];
    for (i, b) in bytes.iter().enumerate() {
        let before = room_of(&c, "alice.testnet");
        let mv = if before.turn == "Player" {
            if i % 2 == 0 && before.strong_attack_player != "0" { "2" } else { "1" }
        } else if i % 3 == 0 && before.shields_player != "0" { "4" } else { "3" };
        let round = c.battle_player_incursion(&me, in_fight(), &vec![*b], &mv.to_string(), depleted, strike).unwrap();
        let after = round.room;
        for (x, y) in [
            (&before.strong_attack_player, &after.strong_attack_player),
            (&before.shields_player, &after.shields_player),
            (&before.strong_attack_cpu, &after.strong_attack_cpu),
            (&before.shields_cpu, &after.shields_cpu),
        ] {
            let (x, y) = (x.parse::<u8>().unwrap(), y.parse::<u8>().unwrap());
            assert!(y == x || y + 1 == x);
        }
        let down = depleted(&round.incursion.mega_burrito.health) || depleted(&after.health);
        if !down {
            assert_ne!(after.turn, before.turn);
        }
    }
}

#[test]
fn players_in_battle() {
    let mut c = with_registered("alice.testnet", "7");
    register(&mut c, "bob.testnet", "8");
    register(&mut c, "carol.testnet", "9");
    open_room(&mut c, "carol.testnet", burrito("2", "Agua", "10", "20", "16"));
    open_room(&mut c, "alice.testnet", burrito("2", "Agua", "10", "20", "16"));
    let mut room = room_of(&c, "alice.testnet");
    room.health = "-1.5".to_string();
    set_room(&mut c, "alice.testnet", room);
    let list = c.burritos_incursion_info(1, alive);
    assert_eq!(list.len(), 2);
    assert_eq!(list[0].player_name, "alice.testnet");
    assert!(!list[0].is_alive);
    assert_eq!(list[0].media, "pic.png");
    assert_eq!(list[1].player_name, "carol.testnet");
    assert!(list[1].is_alive);
    assert!(c.burritos_incursion_info(9, alive).is_empty());
}

#[test]
fn incursion_withdraw_refusals() {
    let mut c = with_registered("alice.testnet", "7");
    let (w, call) = c.withdraw_burrito_owner("bob.testnet".to_string(), 1, 0, standing);
    assert!(!w.complete);
    assert_eq!(w.msg, "No te encuentras registrado en ninguna incursión");
    assert_eq!(w.win, "");
    assert!(w.reward.is_none());
    assert!(call.is_none());
    let (w, _) = c.withdraw_burrito_owner("alice.testnet".to_string(), 1, T0 + TWO_HOURS_NANOS - 1, standing);
    assert!(!w.complete);
    assert_eq!(w.msg, "Aún no termina la incursión");
    let odd = Player { incursion_id: 1, burrito_id: "5".to_string(), burrito_owner: "bob.testnet".to_string(), burrito_contract: "nft.testnet".to_string() };
    c.player_incursion.insert("carol.testnet".to_string(), odd);
    let (w, _) = c.withdraw_burrito_owner("carol.testnet".to_string(), 1, T0 + TWO_HOURS_NANOS, standing);
    assert_eq!(w.msg, "No eres el dueño del burrito");
    assert!(c.can_withdraw_burrito("alice.testnet"));
}

#[test]
fn withdraw_without_battle_returns_burrito() {
    let mut c = with_registered("alice.testnet", "7");
    let (w, call) = c.withdraw_burrito_owner("alice.testnet".to_string(), 1, T0 + TWO_HOURS_NANOS, standing);
    assert!(w.complete);
    assert_eq!(w.win, "");
    assert_eq!(w.msg, "No participaste en la batalla");
    match call {
        Some(IncursionCall::ReturnBurrito { nft_contract, receiver_id, burrito_id, deposit }) => {
            assert_eq!(nft_contract, "nft.testnet");
            assert_eq!(receiver_id, "alice.testnet");
            assert_eq!(burrito_id, "7");
            assert_eq!(deposit, 1);
        }
        _ => panic!("expected the burrito back"),
    }
    assert!(c.can_withdraw_burrito("alice.testnet"));
}

#[test]
fn withdraw_after_a_lost_battle() {
    let mut c = with_registered("alice.testnet", "7");
    open_room(&mut c, "alice.testnet", burrito("2", "Agua", "10", "20", "16"));
    let (w, call) = c.withdraw_burrito_owner("alice.testnet".to_string(), 1, T0 + TWO_HOURS_NANOS, standing);
    assert!(w.complete);
    assert_eq!(w.win, "MegaBurrito");
    assert_eq!(w.msg, "No vencieron al mega burrito");
    assert!(w.reward.is_none());
    match call {
        Some(IncursionCall::WoundAndReturn { burrito_contract, burrito_id, nft_contract, receiver_id, deposit }) => {
            assert_eq!(burrito_contract, "burritos.testnet");
            assert_eq!(burrito_id, "7");
            assert_eq!(nft_contract, "nft.testnet");
            assert_eq!(receiver_id, "alice.testnet");
            assert_eq!(deposit, 1);
        }
        _ => panic!("expected a wound"),
    }
    assert!(!c.can_withdraw_burrito("alice.testnet"));
    assert!(!c.is_in_battle_incursion("alice.testnet"));
    let (w, _) = c.withdraw_burrito_owner("alice.testnet".to_string(), 1, T0 + TWO_HOURS_NANOS, standing);
    assert_eq!(w.msg, "No te encuentras registrado en ninguna incursión");
}

#[test]
fn withdraw_after_a_won_battle() {
    let mut c = contract();
    c.create_incursion(T0, &vec![0, 0, 20]).unwrap();
    register(&mut c, "alice.testnet", "7");
    open_room(&mut c, "alice.testnet", burrito("2", "Agua", "10", "20", "16"));
    let mut inc = c.incursions.get(&1).unwrap().duplicate();
    inc.mega_burrito.health = "5".to_string();
    c.incursions.insert(1, inc);
    let now = in_fight();
    c.battle_player_incursion(&"alice.testnet".to_string(), now, &vec![50], &"1".to_string(), depleted, strike).unwrap();
    let (w, call) = c.withdraw_burrito_owner("alice.testnet".to_string(), 1, now, standing);
    assert!(w.complete);
    assert_eq!(w.win, "Players");
    assert_eq!(w.msg, "Vencieron al mega burrito");
    let basis = w.reward.unwrap();
    assert_eq!(basis.share, 800);
    assert_eq!(f32::from_bits(basis.damage_player), 9.25);
    match call {
        Some(IncursionCall::ReturnAndReward { nft_contract, receiver_id, burrito_id, deposit, strw_contract, reward }) => {
            assert_eq!(nft_contract, "nft.testnet");
            assert_eq!(receiver_id, "alice.testnet");
            assert_eq!(burrito_id, "7");
            assert_eq!(deposit, 1);
            assert_eq!(strw_contract, "strw.testnet");
            assert_eq!(reward.share, 800);
        }
        _ => panic!("expected a reward"),
    }
    assert!(!c.can_withdraw_burrito("alice.testnet"));
}

#[test]
fn incursion_try_withdraw_checks_owner() {
    let mut c = with_registered("alice.testnet", "7");
    let odd = Player { incursion_id: 1, burrito_id: "5".to_string(), burrito_owner: "Bad Name".to_string(), burrito_contract: "nft.testnet".to_string() };
    c.player_incursion.insert("carol.testnet".to_string(), odd);
    assert!(c.try_withdraw_burrito_owner("carol.testnet".to_string(), 1, T0 + TWO_HOURS_NANOS, standing).is_none());
    assert!(c.can_withdraw_burrito("carol.testnet"));
    let gone = Player { incursion_id: 42, burrito_id: "6".to_string(), burrito_owner: "dave.testnet".to_string(), burrito_contract: "nft.testnet".to_string() };
    c.player_incursion.insert("dave.testnet".to_string(), gone);
    assert!(c.try_withdraw_burrito_owner("dave.testnet".to_string(), 1, T0 + TWO_HOURS_NANOS, standing).is_none());
    let out = c.try_withdraw_burrito_owner("alice.testnet".to_string(), 1, T0 + TWO_HOURS_NANOS, standing).unwrap();
    assert_eq!(out.0.msg, "No participaste en la batalla");
}

#[test]
fn incursion_try_withdraw_checks_contract_names() {
    // The mega burrito stands: the burrito contract must be an account.
    let mut c = with_registered("alice.testnet", "7");
    open_room(&mut c, "alice.testnet", burrito("2", "Agua", "10", "20", "16"));
    c.change_contracts(
        "owner.testnet",
        "Bad Burritos".to_string(),
        "incursion.testnet".to_string(),
        "strw.testnet".to_string(),
    )
    .unwrap();
    let early = c.try_withdraw_burrito_owner("alice.testnet".to_string(), 1, T0, standing).unwrap();
    assert_eq!(early.0.msg, "Aún no termina la incursión");
    assert!(c.try_withdraw_burrito_owner("alice.testnet".to_string(), 1, T0 + TWO_HOURS_NANOS, standing).is_none());
    assert!(c.is_in_battle_incursion("alice.testnet"));
    // Once it fell only the STRW contract is addressed, so the bad burrito
    // contract no longer matters.
    let mut inc = c.incursions.get(&1).unwrap().duplicate();
    inc.mega_burrito.health = "-1".to_string();
    c.incursions.insert(1, inc);
    let out = c.try_withdraw_burrito_owner("alice.testnet".to_string(), 1, T0 + TWO_HOURS_NANOS, standing).unwrap();
    assert_eq!(out.0.win, "Players");
    assert!(!c.is_in_battle_incursion("alice.testnet"));
    // A registration whose NFT contract is no account cannot be taken back.
    let mut c = with_registered("bob.testnet", "8");
    let mut p = c.player_incursion.get("bob.testnet").unwrap().duplicate();
    p.burrito_contract = "Not Valid".to_string();
    c.player_incursion.insert("bob.testnet".to_string(), p);
    assert!(c.try_withdraw_burrito_owner("bob.testnet".to_string(), 1, T0 + TWO_HOURS_NANOS, standing).is_none());
    assert!(c.can_withdraw_burrito("bob.testnet"));
}

#[test]
fn no_room_once_the_mega_burrito_fell() {
    let mut c = with_registered("alice.testnet", "7");
    let mut inc = c.incursions.get(&1).unwrap().duplicate();
    inc.mega_burrito.health = "0".to_string();
    c.incursions.insert(1, inc);
    // The fallen mega burrito is refused before the incursion's times are looked at.
    assert_eq!(
        c.create_battle_room("alice.testnet".to_string(), T0, depleted).unwrap_err(),
        IncursionError::MegaBurritoDefeated
    );
    assert_eq!(
        c.create_battle_room("alice.testnet".to_string(), in_fight(), depleted).unwrap_err(),
        IncursionError::MegaBurritoDefeated
    );
    assert!(!c.is_in_battle_incursion("alice.testnet"));
}

#[test]
fn fallen_mega_burrito_takes_no_more_moves() {
    let mut c = with_registered("alice.testnet", "7");
    let mut room = open_room(&mut c, "alice.testnet", burrito("2", "Agua", "10", "20", "16"));
    // Counters that only the step would read are not numbers, and there is
    // no random byte: the move is still answered, unchanged.
    room.shields_cpu = "x".to_string();
    room.strong_attack_cpu = "y".to_string();
    set_room(&mut c, "alice.testnet", room);
    let mut inc = c.incursions.get(&1).unwrap().duplicate();
    inc.mega_burrito.health = "-0.5".to_string();
    c.incursions.insert(1, inc);
    let me = "alice.testnet".to_string();
    let round = c.battle_player_incursion(&me, in_fight(), &vec![], &"2".to_string(), depleted, strike).unwrap();
    assert_eq!(round.room.strong_attack_player, "3");
    assert_eq!(round.room.shields_cpu, "x");
    assert_eq!(round.room.health, "46");
    assert_eq!(round.incursion.mega_burrito.health, "-0.5");
    let stored = room_of(&c, "alice.testnet");
    assert_eq!(stored.strong_attack_player, "3");
    assert_eq!(stored.turn, "Player");
    assert_eq!(c.incursions.get(&1).unwrap().mega_burrito.health, "-0.5");
}

#[test]
fn defence_without_strong_attacks_left_needs_no_random_byte() {
    let mut c = with_registered("alice.testnet", "7");
    let mut room = open_room(&mut c, "alice.testnet", burrito("2", "Agua", "10", "20", "16"));
    room.turn = "CPU".to_string();
    room.strong_attack_cpu = "0".to_string();
    set_room(&mut c, "alice.testnet", room);
    let me = "alice.testnet".to_string();
    let round = c.battle_player_incursion(&me, in_fight(), &vec![], &"4".to_string(), depleted, strike).unwrap();
    assert_eq!(round.room.shields_player, "2");
    assert_eq!(round.room.turn, "Player");
    assert_eq!(round.room.health, "46");
}

#[test]
fn new_owner_alone_passes_the_owner_checks() {
    let mut c = contract();
    c.change_owner("owner.testnet", "bob.testnet".to_string()).unwrap();
    assert_eq!(c.change_treasury("owner.testnet", "t.testnet".to_string()), Err(IncursionError::NotOwner));
    assert!(c.change_contracts("owner.testnet", "a".to_string(), "b".to_string(), "c".to_string()).is_err());
    assert!(c.delete_all_incursions("owner.testnet").is_err());
    assert!(c.start_active_incursion("owner.testnet", T0).is_err());
    assert!(c.finish_active_incursion("owner.testnet", T0).is_err());
    assert!(c.change_owner("owner.testnet", "owner.testnet".to_string()).is_err());
    assert_eq!(c.owner_account_id, "bob.testnet");
    c.change_treasury("bob.testnet", "t.testnet".to_string()).unwrap();
    assert!(c.start_active_incursion("bob.testnet", T0).is_ok());
    assert!(c.finish_active_incursion("bob.testnet", T0).is_ok());
    c.delete_all_incursions("bob.testnet").unwrap();
}

#[test]
fn ids_stay_consistent_through_a_cycle() {
    let mut c = contract();
    c.create_incursion(T0, &vec![1, 2, 3]).unwrap();
    register(&mut c, "alice.testnet", "7");
    c.start_active_incursion("owner.testnet", T0).unwrap();
    c.finish_active_incursion("owner.testnet", T0).unwrap();
    let later = T0 + TWO_HOURS_NANOS + COOLDOWN_NANOS + 1;
    c.create_incursion(later, &vec![1, 2, 3]).unwrap();
    assert_eq!(c.show_last_id(), 2);
    for (k, inc) in c.incursions.iter() {
        assert_eq!(inc.id, *k);
        assert!(1 <= *k && *k <= c.show_last_id());
    }
    assert!(c.incursions.contains_key(&c.show_last_id()));
    c.delete_all_incursions("owner.testnet").unwrap();
    assert_eq!(c.show_last_id(), 0);
    assert!(c.incursions.is_empty());
}
