//! Properties of the incursion that hold across its operations.

use vstd::prelude::*;
use crate::decimal::{lemma_parse_decimal, parse_u8_spec};
use crate::incursion::{
    after_create, ids_consistent, incursion_reward, owner_check, with_owner, new_incursion, status_rank, with_status, IncursionState,
    IncursionStatus, IncursionView, RoomView,
};
use crate::incursion_play::{
    after_battle_withdraw, after_register, after_strike, battle_after_strike, battle_ok, battle_over, step_ok,
    battle_refusal, battle_step, dec_text, is_registered, num, registration, registration_open,
    room_of, with_player, withdraw_refusal, BattleStep, battle_withdrawal, IncursionCallView,
    WithdrawalView,
};
use crate::incursion::BurritoPlayerView;

verus! {

/// Law: the reward pool of a new incursion is 70,000 to 200,000, in steps
/// of 10,000, for every random byte but 0 and 255, which give none.
pub proof fn law_reward_range(r: u8)
    ensures
        r != 0 && r != 255 ==> 70000 <= incursion_reward(r) <= 200000,
        incursion_reward(r) % 10000 == 0,
        r == 0 || r == 255 ==> incursion_reward(r) == 0,
{
    if r != 0 && r != 255 && r / 18 < 13 {
        assert((70000 + 10000 * (r / 18)) % 10000 == 0) by (nonlinear_arith);
    }
}

/// Law: creating an incursion keeps ids consistent: the new one takes the
/// next id.
pub proof fn law_create_keeps_ids(s: IncursionState, now: u64, seed: Seq<u8>)
    requires
        ids_consistent(s),
        s.last_id < u64::MAX,
        seed.len() >= 3,
    ensures
        ids_consistent(after_create(s, now, seed)),
{
}

/// Law: the incursion that `create_incursion` adds is the one that
/// `get_active_incursion` answers afterwards.
pub proof fn law_created_is_active(s: IncursionState, now: u64, seed: Seq<u8>)
    ensures
        after_create(s, now, seed).incursions.contains_key(after_create(s, now, seed).last_id),
        after_create(s, now, seed).incursions[after_create(s, now, seed).last_id] == new_incursion(
            s,
            now,
            seed,
        ),
{
}

/// Law: the reward pool follows the table step by step: 70,000 for the
/// bytes 1 to 17, then 10,000 more for each further 18 values of the byte,
/// up to 190,000 for 216 to 233 and 200,000 for 234 to 254; the bytes 0 and
/// 255 match no step and give nothing.  A larger byte never gives a
/// smaller pool within 1 to 254.
pub proof fn law_reward_table(r: u8, r2: u8)
    ensures
        1 <= r <= 233 ==> incursion_reward(r) == 70000 + 10000 * (r / 18),
        234 <= r <= 254 ==> incursion_reward(r) == 200000,
        r == 0 || r == 255 ==> incursion_reward(r) == 0,
        1 <= r <= r2 <= 254 ==> incursion_reward(r) <= incursion_reward(r2),
{
    if 1 <= r <= r2 <= 254 {
        assert(r / 18 <= r2 / 18);
    }
}

/// Law: moving an incursion to another status keeps ids consistent.
pub proof fn law_status_change_keeps_ids(s: IncursionState, k: u64, st: IncursionStatus)
    requires
        ids_consistent(s),
        s.incursions.contains_key(k),
    ensures
        ids_consistent(
            IncursionState {
                incursions: s.incursions.insert(k, with_status(s.incursions[k], st)),
                ..s
            },
        ),
{
}

/// Law: starting and finishing only move incursions forward: waiting, in
/// progress, finished.
pub proof fn law_status_only_advances(
    s: IncursionState,
    k: u64,
    from: IncursionStatus,
    to: IncursionStatus,
)
    requires
        s.incursions.contains_key(k),
        s.incursions[k].status == from,
        (from == IncursionStatus::WaitingPlayers && to == IncursionStatus::InProgress) || (from
            == IncursionStatus::InProgress && to == IncursionStatus::Finished),
    ensures
        ({
            let after = s.incursions.insert(k, with_status(s.incursions[k], to));
            forall|j: u64|
                #[trigger] s.incursions.contains_key(j) ==> after.contains_key(j) && status_rank(
                    after[j].status,
                ) >= status_rank(s.incursions[j].status)
        }),
{
}

/// Law: registering a player keeps an incursion's count of registered
/// players equal to the number of registered burritos, and keeps ids
/// consistent.
pub proof fn law_register_counts(s: IncursionState, id: u64, p: BurritoPlayerView)
    requires
        ids_consistent(s),
        s.incursions.contains_key(id),
        s.incursions[id].registered_players == s.incursions[id].players.len(),
        s.incursions[id].registered_players < 255,
    ensures
        ({
            let info = s.incursions[id];
            let after = with_player(info, p);
            &&& after.registered_players == after.players.len()
            &&& after.id == info.id
            &&& ids_consistent(
                IncursionState { incursions: s.incursions.insert(info.id, after), ..s },
            )
        }),
{
}

/// Law: a registration reads back: `get_player_incursion` answers it, the
/// player's burrito is the incursion's latest, and the player counts as
/// registered for the incursion, so a second burrito is sent back.
pub proof fn law_registration_is_read_back(
    s: IncursionState,
    id: u64,
    p: BurritoPlayerView,
    contract_id: Seq<char>,
)
    requires
        ids_consistent(s),
        s.incursions.contains_key(id),
    ensures
        ({
            let s1 = after_register(s, id, p, contract_id);
            &&& s1.players.contains_key(p.burrito_owner)
            &&& s1.players[p.burrito_owner] == registration(id, p, contract_id)
            &&& s1.incursions.contains_key(s1.players[p.burrito_owner].incursion_id)
            &&& s1.incursions[id].players.last() == p
            &&& is_registered(s1.incursions[id], p.burrito_owner)
            &&& !registration_open(s1, id, p.burrito_owner)
        }),
{
    let s1 = after_register(s, id, p, contract_id);
    let ps = s1.incursions[id].players;
    assert(ps[ps.len() - 1].burrito_owner == p.burrito_owner);
}

/// Law: a strike keeps ids consistent: the incursion goes back under its
/// own key.
pub proof fn law_strike_keeps_ids(
    s: IncursionState,
    signer: Seq<char>,
    room1: RoomView,
    player_turn: bool,
    now: u64,
    new_health: Seq<char>,
    down: bool,
    damage: u32,
)
    requires
        ids_consistent(s),
        s.rooms.contains_key(signer),
        s.incursions.contains_key(room_of(s, signer).incursion_id),
    ensures
        ids_consistent(
            battle_after_strike(s, signer, room1, player_turn, now, new_health, down, damage).0,
        ),
{
}

/// A counter stays, or drops by one from a positive number.
pub open spec fn steps_down(before: Seq<char>, after: Seq<char>) -> bool {
    ||| after == before
    ||| parse_u8_spec(before) is Some && num(before) > 0 && parse_u8_spec(after) == Some(
        (num(before) - 1) as u8,
    )
}

/// Every counter of strong attacks and shields stays or drops by one.
pub open spec fn counters_step_down(before: RoomView, after: RoomView) -> bool {
    &&& steps_down(before.strong_attack_player, after.strong_attack_player)
    &&& steps_down(before.shields_player, after.shields_player)
    &&& steps_down(before.strong_attack_cpu, after.strong_attack_cpu)
    &&& steps_down(before.shields_cpu, after.shields_cpu)
}

proof fn lemma_dec_text(s: Seq<char>)
    requires
        parse_u8_spec(s) is Some,
        num(s) > 0,
    ensures
        parse_u8_spec(dec_text(s)) == Some((num(s) - 1) as u8),
{
    lemma_parse_decimal((num(s) - 1) as nat, 255);
}

/// Law: on the player's turn the mega burrito blocks an accepted move only
/// with a shield: with no shield left the move always strikes, and every
/// block spends exactly one shield and passes the turn to the mega burrito.
pub proof fn law_block_spends_a_shield(s: IncursionState, signer: Seq<char>, tm: Seq<char>, r: u8)
    requires
        room_of(s, signer).turn == "Player"@,
        parse_u8_spec(room_of(s, signer).shields_cpu) is Some,
    ensures
        num(room_of(s, signer).shields_cpu) == 0 ==> battle_step(s, signer, tm, r) is Strike,
        battle_step(s, signer, tm, r) matches BattleStep::Save(room2) ==> {
            &&& num(room_of(s, signer).shields_cpu) > 0
            &&& parse_u8_spec(room2.shields_cpu) == Some(
                (num(room_of(s, signer).shields_cpu) - 1) as u8,
            )
            &&& room2.turn == "CPU"@
        },
{
    let room = room_of(s, signer);
    if num(room.shields_cpu) > 0 {
        lemma_dec_text(room.shields_cpu);
    }
}

/// Law: the share of a won battle's reward is the incursion's reward pool
/// divided by 100, whatever the number of registered players, and the
/// damage is the player's own; the same basis goes to the reward call.
pub proof fn law_reward_share(s: IncursionState, signer: Seq<char>, deposit: u128)
    ensures
        ({
            let pool = s.incursions[s.players[signer].incursion_id].rewards;
            let damage = s.rooms[signer].damage_player;
            let (answer, call) = battle_withdrawal(s, signer, deposit, false);
            &&& answer.reward == Some((pool / 100, damage))
            &&& answer.win == "Players"@
            &&& call matches IncursionCallView::ReturnAndReward { share, damage_player, .. }
                && share == pool / 100 && damage_player == damage
        }),
{
}

/// Law: a player owning any of the burritos registered for an incursion, at
/// whatever position, cannot register another burrito for it.
pub proof fn law_registered_anywhere(s: IncursionState, id: u64, p: Seq<char>, i: int)
    requires
        s.incursions.contains_key(id),
        0 <= i < s.incursions[id].players.len(),
        s.incursions[id].players[i].burrito_owner == p,
    ensures
        is_registered(s.incursions[id], p),
        !registration_open(s, id, p),
{
}

/// Law: a move never adds strong attacks or shields: each counter stays or
/// drops by one, before and after any strike.
pub proof fn law_counters_never_increase(
    s: IncursionState,
    signer: Seq<char>,
    now: u64,
    seed: Seq<u8>,
    tm: Seq<char>,
    new_health: Seq<char>,
    down: bool,
    damage: u32,
)
    requires
        s.rooms.contains_key(signer),
        battle_ok(s, signer, now, tm),
        step_ok(s, signer, seed, tm),
        !battle_over(s, signer, now),
        battle_refusal(s, signer, now, tm) is None,
    ensures
        match battle_step(s, signer, tm, seed[0]) {
            BattleStep::Save(room2) => counters_step_down(room_of(s, signer), room2),
            BattleStep::Strike { room: room1, player_turn, strong } => {
                let inc = s.incursions[room_of(s, signer).incursion_id];
                let after = after_strike(inc, room1, player_turn, now, new_health, down, damage).1;
                counters_step_down(room_of(s, signer), room1) && counters_step_down(
                    room_of(s, signer),
                    after,
                )
            },
        },
{
    let room = room_of(s, signer);
    if parse_u8_spec(room.strong_attack_player) is Some && num(room.strong_attack_player) > 0 {
        lemma_dec_text(room.strong_attack_player);
    }
    if parse_u8_spec(room.shields_player) is Some && num(room.shields_player) > 0 {
        lemma_dec_text(room.shields_player);
    }
    if parse_u8_spec(room.strong_attack_cpu) is Some && num(room.strong_attack_cpu) > 0 {
        lemma_dec_text(room.strong_attack_cpu);
    }
    if parse_u8_spec(room.shields_cpu) is Some && num(room.shields_cpu) > 0 {
        lemma_dec_text(room.shields_cpu);
    }
}

/// Law: the sides take turns: after an accepted move that leaves both
/// burritos standing, the turn is the other side's.
pub proof fn law_turns_alternate(
    s: IncursionState,
    signer: Seq<char>,
    now: u64,
    seed: Seq<u8>,
    tm: Seq<char>,
    new_health: Seq<char>,
    damage: u32,
)
    requires
        s.rooms.contains_key(signer),
        battle_ok(s, signer, now, tm),
        step_ok(s, signer, seed, tm),
        !battle_over(s, signer, now),
        battle_refusal(s, signer, now, tm) is None,
    ensures
        ({
            let before = room_of(s, signer).turn;
            let other = if before == "Player"@ {
                "CPU"@
            } else {
                "Player"@
            };
            match battle_step(s, signer, tm, seed[0]) {
                BattleStep::Save(room2) => room2.turn == other,
                BattleStep::Strike { room: room1, player_turn, strong } => {
                    let inc = s.incursions[room_of(s, signer).incursion_id];
                    after_strike(inc, room1, player_turn, now, new_health, false, damage).1.turn
                        == other
                },
            }
        }),
{
}

/// Law: only the player's strikes change the incursion and the player's
/// damage; the mega burrito's strikes change the room's health and turn
/// alone.
pub proof fn law_damage_only_from_player(
    inc: IncursionView,
    room: RoomView,
    now: u64,
    new_health: Seq<char>,
    down: bool,
    damage: u32,
)
    ensures
        ({
            let (inc2, room2) = after_strike(inc, room, false, now, new_health, down, damage);
            &&& inc2 == inc
            &&& room2.damage_player == room.damage_player
            &&& room2 == RoomView { health: new_health, turn: room2.turn, ..room }
        }),
{
}

/// Law: once `change_owner` hands the contract to `x`, the owner check of
/// every owner-only method passes exactly for `x`, so the former owner is
/// refused unless it is `x`; nothing else of the state changes.
pub proof fn law_owner_handover(s: IncursionState, x: Seq<char>, caller: Seq<char>)
    ensures
        owner_check(with_owner(s, x), caller) <==> caller == x,
        s.owner_account_id != x ==> !owner_check(with_owner(s, x), s.owner_account_id),
        with_owner(s, x) == (IncursionState { owner_account_id: with_owner(s, x).owner_account_id, ..s }),
{
}

/// Law: a burrito comes back from a battle once: after taking it back, the
/// player is no longer registered and a second withdrawal is refused.
pub proof fn law_withdraw_once(s: IncursionState, signer: Seq<char>, now: u64)
    ensures
        withdraw_refusal(after_battle_withdraw(s, signer), signer, now) == Some(
            "No te encuentras registrado en ninguna incursión"@,
        ),
        !after_battle_withdraw(s, signer).rooms.contains_key(signer),
{
}

} // verus!
