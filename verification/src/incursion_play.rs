//! Playing an incursion: registering a burrito, opening a battle room,
//! fighting the mega burrito round by round, and taking the burrito back.

use vstd::prelude::*;
use crate::account::{is_valid_account_id, valid_account_id};
use crate::decimal::{decimal, lemma_parse_decimal, parse_u8, parse_u8_spec, u8_to_string};
use crate::incursion::{
    incursions_view, registrations_view, rooms_view, BPvsMB, Burrito, BurritoAttacker,
    BurritoDefender, BurritoPlayer, MsgInput,
    BurritoPlayerView, Contract, IncrusionPlayer, IncrusionRound, Incursion, IncursionError,
    IncursionState, IncursionView,
    MegaBurritoView, Player, PlayerInBattle, PlayerView, PromiseOutcome, RoomView,
    null_incursion, players_view, state_ok, HOUR_NANOS, TWO_HOURS_NANOS,
};

verus! {

/// A cross-contract call that a method asks for.
#[derive(Debug)]
pub enum IncursionCall {
    /// `get_burrito_incursion(token_id)` on `burrito_contract`, whose answer
    /// goes to `get_burrito_info(incursion, player, contract_id)` on
    /// `incursion_contract`.
    InspectBurrito {
        burrito_contract: String,
        token_id: String,
        incursion_contract: String,
        incursion: Incursion,
        player: BurritoPlayer,
        contract_id: String,
    },
    /// `get_balance_and_transfer_minigames(account_id, action, treasury_id)` on
    /// `strw_contract`, then `register_player_incursion(incursion, player,
    /// contract_id)` on `incursion_contract`.
    ChargeAndRegister {
        strw_contract: String,
        account_id: String,
        action: String,
        treasury_id: String,
        incursion_contract: String,
        incursion: Incursion,
        player: BurritoPlayer,
        contract_id: String,
    },
    /// `get_burrito_incursion(burrito_id)` on `burrito_contract`, whose answer
    /// goes to `save_battle_room(player, incursion, player_id)` on
    /// `incursion_contract`.
    FetchBattleBurrito {
        burrito_contract: String,
        burrito_id: String,
        incursion_contract: String,
        player: Player,
        incursion: Incursion,
        player_id: String,
    },
    /// `nft_transfer(receiver_id, burrito_id)` on `nft_contract`, with
    /// `deposit` attached.
    ReturnBurrito { nft_contract: String, receiver_id: String, burrito_id: String, deposit: u128 },
    /// `decrease_all_burrito_hp(burrito_id)` on `burrito_contract`, then
    /// `nft_transfer(receiver_id, burrito_id)` on `nft_contract` with
    /// `deposit` attached.
    WoundAndReturn {
        burrito_contract: String,
        burrito_id: String,
        nft_contract: String,
        receiver_id: String,
        deposit: u128,
    },
    /// `nft_transfer(receiver_id, burrito_id)` on `nft_contract` with `deposit`
    /// attached, then `reward_player(receiver_id, tokens)` on
    /// `strw_contract`, the tokens following from `reward`.
    ReturnAndReward {
        nft_contract: String,
        receiver_id: String,
        burrito_id: String,
        deposit: u128,
        strw_contract: String,
        reward: RewardBasis,
    },
}

/// What a player's reward follows from: a hundredth of the incursion's
/// reward pool (integer division), and the damage the player dealt (a 32-bit
/// float, as its bit pattern).  The reward is `share * damage + 3000`, and
/// `10^24` times that many tokens are minted.
#[derive(Debug)]
pub struct RewardBasis {
    pub share: u64,
    pub damage_player: u32,
}

/// A value, or a call whose answer decides.
#[derive(Debug)]
pub enum IncursionReply<T> {
    Value(T),
    Promise(IncursionCall),
}

/// The answer to a withdrawal; `reward` is there exactly when the players
/// won.
#[derive(Debug)]
pub struct Withdrawal {
    pub complete: bool,
    pub win: String,
    pub msg: String,
    pub reward: Option<RewardBasis>,
}

/// How a random byte scales an attack: by a tenth of the byte below 10, a
/// hundredth below 100, a thousandth below 255, and to nothing at 255.
#[derive(PartialEq, Eq, Structural, Clone, Copy, Debug)]
pub enum AttackScale {
    Tenths,
    Hundredths,
    Thousandths,
    Zero,
}

/// One strike of a round, for the caller's floating-point arithmetic: with
/// `m` the random byte `rand` times the fraction that `scale` names, the
/// attack is `attack * m`, a quarter more with the type `advantage`; 2 is
/// added below 1, then 3, and the sum is doubled for a `strong` strike and
/// rounded to hundredths.  The defender's health drops by the attack, and on
/// a player's strike the attack adds to `damage_player` (bit pattern).
#[derive(Debug)]
pub struct StrikeRequest {
    pub attack: String,
    pub rand: u8,
    pub scale: AttackScale,
    pub advantage: bool,
    pub strong: bool,
    pub defender_health: String,
    pub damage_player: u32,
}

/// The result of a strike: the defender's new health as text, whether it is
/// at most 0, and the player's damage after the strike (bit pattern).
#[derive(Debug)]
pub struct StrikeOutcome {
    pub new_health: String,
    pub defender_down: bool,
    pub damage_player: u32,
}

// ------------------------------------------------------------------------
// Mathematical model
// ------------------------------------------------------------------------

/// A requested call, texts as character sequences.
pub enum IncursionCallView {
    InspectBurrito {
        burrito_contract: Seq<char>,
        token_id: Seq<char>,
        incursion_contract: Seq<char>,
        incursion: IncursionView,
        player: BurritoPlayerView,
        contract_id: Seq<char>,
    },
    ChargeAndRegister {
        strw_contract: Seq<char>,
        account_id: Seq<char>,
        action: Seq<char>,
        treasury_id: Seq<char>,
        incursion_contract: Seq<char>,
        incursion: IncursionView,
        player: BurritoPlayerView,
        contract_id: Seq<char>,
    },
    FetchBattleBurrito {
        burrito_contract: Seq<char>,
        burrito_id: Seq<char>,
        incursion_contract: Seq<char>,
        player: PlayerView,
        incursion: IncursionView,
        player_id: Seq<char>,
    },
    ReturnBurrito {
        nft_contract: Seq<char>,
        receiver_id: Seq<char>,
        burrito_id: Seq<char>,
        deposit: u128,
    },
    WoundAndReturn {
        burrito_contract: Seq<char>,
        burrito_id: Seq<char>,
        nft_contract: Seq<char>,
        receiver_id: Seq<char>,
        deposit: u128,
    },
    ReturnAndReward {
        nft_contract: Seq<char>,
        receiver_id: Seq<char>,
        burrito_id: Seq<char>,
        deposit: u128,
        strw_contract: Seq<char>,
        share: u64,
        damage_player: u32,
    },
}

impl View for IncursionCall {
    type V = IncursionCallView;

    open spec fn view(&self) -> IncursionCallView {
        match self {
            IncursionCall::InspectBurrito {
                burrito_contract,
                token_id,
                incursion_contract,
                incursion,
                player,
                contract_id,
            } => IncursionCallView::InspectBurrito {
                burrito_contract: burrito_contract@,
                token_id: token_id@,
                incursion_contract: incursion_contract@,
                incursion: incursion@,
                player: player@,
                contract_id: contract_id@,
            },
            IncursionCall::ChargeAndRegister {
                strw_contract,
                account_id,
                action,
                treasury_id,
                incursion_contract,
                incursion,
                player,
                contract_id,
            } => IncursionCallView::ChargeAndRegister {
                strw_contract: strw_contract@,
                account_id: account_id@,
                action: action@,
                treasury_id: treasury_id@,
                incursion_contract: incursion_contract@,
                incursion: incursion@,
                player: player@,
                contract_id: contract_id@,
            },
            IncursionCall::FetchBattleBurrito {
                burrito_contract,
                burrito_id,
                incursion_contract,
                player,
                incursion,
                player_id,
            } => IncursionCallView::FetchBattleBurrito {
                burrito_contract: burrito_contract@,
                burrito_id: burrito_id@,
                incursion_contract: incursion_contract@,
                player: player@,
                incursion: incursion@,
                player_id: player_id@,
            },
            IncursionCall::ReturnBurrito { nft_contract, receiver_id, burrito_id, deposit } =>
                IncursionCallView::ReturnBurrito {
                nft_contract: nft_contract@,
                receiver_id: receiver_id@,
                burrito_id: burrito_id@,
                deposit: *deposit,
            },
            IncursionCall::WoundAndReturn {
                burrito_contract,
                burrito_id,
                nft_contract,
                receiver_id,
                deposit,
            } => IncursionCallView::WoundAndReturn {
                burrito_contract: burrito_contract@,
                burrito_id: burrito_id@,
                nft_contract: nft_contract@,
                receiver_id: receiver_id@,
                deposit: *deposit,
            },
            IncursionCall::ReturnAndReward {
                nft_contract,
                receiver_id,
                burrito_id,
                deposit,
                strw_contract,
                reward,
            } => IncursionCallView::ReturnAndReward {
                nft_contract: nft_contract@,
                receiver_id: receiver_id@,
                burrito_id: burrito_id@,
                deposit: *deposit,
                strw_contract: strw_contract@,
                share: reward.share,
                damage_player: reward.damage_player,
            },
        }
    }
}

/// The burrito and incursion contracts have account names, as the calls
/// that ask about a burrito and hear the answer need: the contract panics
/// on a name that no account can have.
pub open spec fn lookup_names_ok(s: IncursionState) -> bool {
    valid_account_id(s.burrito_contract) && valid_account_id(s.incursion_contract)
}

/// The STRW and incursion contracts have account names, as the calls that
/// charge a player and then register the burrito need: the contract panics
/// on a name that no account can have.
pub open spec fn charge_names_ok(s: IncursionState) -> bool {
    valid_account_id(s.strw_contract) && valid_account_id(s.incursion_contract)
}

/// `player` owns one of the burritos registered for `inc`.
pub open spec fn is_registered(inc: IncursionView, player: Seq<char>) -> bool {
    exists|i: int| 0 <= i < inc.players.len() && #[trigger] inc.players[i].burrito_owner == player
}

/// A burrito may register for incursion `id`: it exists, it is not full and
/// `player` has not registered a burrito for it.
pub open spec fn registration_open(s: IncursionState, id: u64, player: Seq<char>) -> bool {
    &&& s.incursions.contains_key(id)
    &&& s.incursions[id].registered_players != s.incursions[id].players_number
    &&& !is_registered(s.incursions[id], player)
}

/// Incursion `id` with `player` added.
pub open spec fn with_player(inc: IncursionView, player: BurritoPlayerView) -> IncursionView {
    IncursionView {
        players: inc.players.push(player),
        registered_players: (inc.registered_players + 1) as u8,
        ..inc
    }
}

/// A battle room whose every text is empty.
pub open spec fn null_room() -> RoomView {
    RoomView {
        turn: Seq::empty(),
        burrito_player_id: Seq::empty(),
        name: Seq::empty(),
        burrito_type: Seq::empty(),
        start_health: Seq::empty(),
        health: Seq::empty(),
        hp: Seq::empty(),
        attack: Seq::empty(),
        defense: Seq::empty(),
        speed: Seq::empty(),
        level: Seq::empty(),
        media: Seq::empty(),
        strong_attack_player: Seq::empty(),
        shields_player: Seq::empty(),
        incursion_id: 0,
        strong_attack_cpu: Seq::empty(),
        shields_cpu: Seq::empty(),
        damage_player: 0,
    }
}

/// The number that a text holds, where it holds one.
pub open spec fn num(s: Seq<char>) -> u8 {
    parse_u8_spec(s).unwrap()
}

/// The battle stats of a burrito are numbers whose sum fits a byte, and the
/// mega burrito's speed is a number.
pub open spec fn battle_stats_ok(b_attack: Seq<char>, b_defense: Seq<char>, b_speed: Seq<char>, mega_speed: Seq<char>) -> bool {
    &&& parse_u8_spec(b_attack) is Some
    &&& parse_u8_spec(b_defense) is Some
    &&& parse_u8_spec(b_speed) is Some
    &&& num(b_attack) + num(b_defense) + num(b_speed) <= 255
    &&& parse_u8_spec(mega_speed) is Some
}

/// The battle room that a player's burrito opens against the incursion's
/// mega burrito: the health is the sum of attack, defense and speed; each
/// side has three strong attacks and three shields; the faster side begins,
/// the player on a tie.
pub open spec fn new_room(
    player: PlayerView,
    inc: IncursionView,
    name: Seq<char>,
    burrito_type: Seq<char>,
    hp: Seq<char>,
    attack: Seq<char>,
    defense: Seq<char>,
    speed: Seq<char>,
    level: Seq<char>,
    media: Seq<char>,
) -> RoomView {
    let health = decimal((num(attack) + num(defense) + num(speed)) as nat);
    RoomView {
        turn: if num(inc.mega_burrito.speed) > num(speed) {
            "CPU"@
        } else {
            "Player"@
        },
        burrito_player_id: player.burrito_id,
        name,
        burrito_type,
        start_health: health,
        health,
        hp,
        attack,
        defense,
        speed,
        level,
        media,
        strong_attack_player: "3"@,
        shields_player: "3"@,
        incursion_id: inc.id,
        strong_attack_cpu: "3"@,
        shields_cpu: "3"@,
        damage_player: 0,
    }
}

/// The attacker of type `a` has the advantage over a defender of type `d`:
/// fire over plant, water over fire, plant over electric, electric over
/// flying, flying over water.
pub open spec fn type_advantage(a: Seq<char>, d: Seq<char>) -> bool {
    ||| a == "Fuego"@ && d == "Planta"@
    ||| a == "Agua"@ && d == "Fuego"@
    ||| a == "Planta"@ && d == "Eléctrico"@
    ||| a == "Eléctrico"@ && d == "Volador"@
    ||| a == "Volador"@ && d == "Agua"@
}

/// How the random byte `r` scales an attack.
pub open spec fn attack_scale(r: u8) -> AttackScale {
    if r < 10 {
        AttackScale::Tenths
    } else if r < 100 {
        AttackScale::Hundredths
    } else if r < 255 {
        AttackScale::Thousandths
    } else {
        AttackScale::Zero
    }
}

/// `n` less one, as text.
pub open spec fn dec_text(s: Seq<char>) -> Seq<char> {
    decimal((num(s) - 1) as nat)
}

/// A move: `1` weak attack, `2` strong attack, `3` no defense, `4` defense.
pub open spec fn is_attack(tm: Seq<char>) -> bool {
    tm == "1"@ || tm == "2"@
}

/// A move that answers an attack.
pub open spec fn is_defense(tm: Seq<char>) -> bool {
    tm == "3"@ || tm == "4"@
}

/// The battle room of `signer`.
pub open spec fn room_of(s: IncursionState, signer: Seq<char>) -> RoomView {
    s.rooms[signer]
}

/// The incursion of the battle room of `signer`.
pub open spec fn room_incursion(s: IncursionState, signer: Seq<char>) -> IncursionView {
    s.incursions[room_of(s, signer).incursion_id]
}

/// The incursion of the battle room of `signer` has ended at `now`.
pub open spec fn battle_over(s: IncursionState, signer: Seq<char>, now: u64) -> bool {
    now > room_incursion(s, signer).finish_time
}

/// Why a move `tm` of `signer` at `now` is refused, if it is.
pub open spec fn battle_refusal(s: IncursionState, signer: Seq<char>, now: u64, tm: Seq<char>) -> Option<
    IncursionError,
> {
    let room = room_of(s, signer);
    if !s.rooms.contains_key(signer) {
        Some(IncursionError::NoActiveBattle)
    } else if battle_over(s, signer, now) {
        None
    } else if is_attack(tm) && room.turn == "CPU"@ {
        Some(IncursionError::MustDefend)
    } else if is_defense(tm) && room.turn == "Player"@ {
        Some(IncursionError::MustAttack)
    } else if tm == "2"@ && num(room.strong_attack_player) == 0 {
        Some(IncursionError::NoStrongAttacks)
    } else if tm == "4"@ && num(room.shields_player) == 0 {
        Some(IncursionError::NoShields)
    } else {
        None
    }
}

/// The inputs on which a move gets past its checks without panicking: the
/// room's incursion exists, and the stock of strong attacks or shields that
/// a strong attack or a defense spends is a number wherever the turn lets
/// the move through to that check.
pub open spec fn battle_ok(s: IncursionState, signer: Seq<char>, now: u64, tm: Seq<char>) -> bool {
    let room = room_of(s, signer);
    s.rooms.contains_key(signer) ==> {
        &&& s.incursions.contains_key(room.incursion_id)
        &&& !battle_over(s, signer, now) ==> {
            &&& tm == "2"@ && room.turn != "CPU"@ ==> parse_u8_spec(room.strong_attack_player) is Some
            &&& tm == "4"@ && room.turn != "Player"@ ==> parse_u8_spec(room.shields_player) is Some
        }
    }
}

/// The inputs on which the step of an accepted move `tm` against a standing
/// mega burrito computes without panicking: every counter that the step
/// reads is a number, and the random byte is there wherever the step reads
/// it (on the player's turn, and on the mega burrito's turn while it has
/// strong attacks or when the player does not defend).
pub open spec fn step_ok(s: IncursionState, signer: Seq<char>, seed: Seq<u8>, tm: Seq<char>) -> bool {
    let room = room_of(s, signer);
    &&& room.turn == "Player"@ ==> parse_u8_spec(room.shields_cpu) is Some
    &&& room.turn != "Player"@ ==> {
        &&& parse_u8_spec(room.strong_attack_cpu) is Some
        &&& num(room.strong_attack_cpu) > 0 ==> parse_u8_spec(room.shields_player) is Some
    }
    &&& room.turn == "Player"@ || num(room.strong_attack_cpu) > 0 || tm != "4"@ ==> seed.len() >= 1
}

/// What a move leads to before any strike.
pub enum BattleStep {
    /// The room, with its counters as the move left them, is saved; no strike.
    Save(RoomView),
    /// A strike follows, with the room's counters as the move left them.
    Strike { room: RoomView, player_turn: bool, strong: bool },
}

/// The step of an accepted move `tm` in the room of `signer`, with random
/// byte `r`.  On the player's turn a strong attack spends one of the
/// player's strong attacks, and the mega burrito, while it has shields,
/// blocks the attack on an odd byte, spending a shield.  On the mega
/// burrito's turn it strikes strongly, while it has strong attacks, when the
/// player has no shield or on an odd byte; a defense spends one of the
/// player's shields and blocks the strike.
pub open spec fn battle_step(s: IncursionState, signer: Seq<char>, tm: Seq<char>, r: u8) -> BattleStep {
    let room = room_of(s, signer);
    if room.turn == "Player"@ {
        let room1 = if tm == "2"@ {
            RoomView { strong_attack_player: dec_text(room.strong_attack_player), ..room }
        } else {
            room
        };
        if num(room.shields_cpu) > 0 && r % 2 == 1 {
            BattleStep::Save(
                RoomView { shields_cpu: dec_text(room.shields_cpu), turn: "CPU"@, ..room1 },
            )
        } else {
            BattleStep::Strike { room: room1, player_turn: true, strong: tm == "2"@ }
        }
    } else {
        let cpu_strong = num(room.strong_attack_cpu) > 0 && (num(room.shields_player) == 0 || r % 2
            == 1);
        let room1 = if cpu_strong {
            RoomView { strong_attack_cpu: dec_text(room.strong_attack_cpu), ..room }
        } else {
            room
        };
        if tm == "4"@ {
            BattleStep::Save(
                RoomView { shields_player: dec_text(room1.shields_player), turn: "Player"@, ..room1 },
            )
        } else {
            BattleStep::Strike { room: room1, player_turn: false, strong: cpu_strong }
        }
    }
}

/// The strike of a step, texts as character sequences.
pub struct StrikeView {
    pub attack: Seq<char>,
    pub rand: u8,
    pub scale: AttackScale,
    pub advantage: bool,
    pub strong: bool,
    pub defender_health: Seq<char>,
    pub damage_player: u32,
}

impl View for StrikeRequest {
    type V = StrikeView;

    open spec fn view(&self) -> StrikeView {
        StrikeView {
            attack: self.attack@,
            rand: self.rand,
            scale: self.scale,
            advantage: self.advantage,
            strong: self.strong,
            defender_health: self.defender_health@,
            damage_player: self.damage_player,
        }
    }
}

/// The strike of the room `room` against or by the mega burrito `mega`: on
/// the player's turn the player's burrito strikes the mega burrito, on the
/// mega burrito's turn the other way round.
pub open spec fn strike_of(room: RoomView, mega: MegaBurritoView, player_turn: bool, strong: bool, r: u8) -> StrikeView {
    if player_turn {
        StrikeView {
            attack: room.attack,
            rand: r,
            scale: attack_scale(r),
            advantage: type_advantage(room.burrito_type, mega.burrito_type),
            strong,
            defender_health: mega.health,
            damage_player: room.damage_player,
        }
    } else {
        StrikeView {
            attack: mega.attack,
            rand: r,
            scale: attack_scale(r),
            advantage: type_advantage(mega.burrito_type, room.burrito_type),
            strong,
            defender_health: room.health,
            damage_player: room.damage_player,
        }
    }
}

/// The incursion and the room after a strike with result (`new_health`,
/// `down`, `damage`) at `now`.  A player's strike lowers the mega burrito's
/// health, adds to the player's damage and, when the mega burrito falls,
/// ends the incursion at `now`; otherwise the turn passes to the mega
/// burrito.  The mega burrito's strike lowers the room's health; unless the
/// player's burrito falls, the turn passes to the player.
pub open spec fn after_strike(
    inc: IncursionView,
    room: RoomView,
    player_turn: bool,
    now: u64,
    new_health: Seq<char>,
    down: bool,
    damage: u32,
) -> (IncursionView, RoomView) {
    if player_turn {
        (
            IncursionView {
                mega_burrito: MegaBurritoView { health: new_health, ..inc.mega_burrito },
                finish_time: if down {
                    now
                } else {
                    inc.finish_time
                },
                ..inc
            },
            RoomView {
                damage_player: damage,
                turn: if down {
                    room.turn
                } else {
                    "CPU"@
                },
                ..room
            },
        )
    } else {
        (
            inc,
            RoomView {
                health: new_health,
                turn: if down {
                    room.turn
                } else {
                    "Player"@
                },
                ..room
            },
        )
    }
}

/// The reward basis of a player who dealt `damage` in `inc`.
pub open spec fn reward_basis(inc: IncursionView, damage: u32) -> (u64, u32) {
    (inc.rewards / 100, damage)
}

// ------------------------------------------------------------------------
// Helpers
// ------------------------------------------------------------------------

impl BPvsMB {
    /// The battle room whose every text is empty.
    pub fn null() -> (r: BPvsMB)
        ensures
            r@ == null_room(),
    {
        BPvsMB {
            turn: String::new(),
            burrito_player_id: String::new(),
            name: String::new(),
            burrito_type: String::new(),
            start_health: String::new(),
            health: String::new(),
            hp: String::new(),
            attack: String::new(),
            defense: String::new(),
            speed: String::new(),
            level: String::new(),
            media: String::new(),
            strong_attack_player: String::new(),
            shields_player: String::new(),
            incursion_id: 0,
            strong_attack_cpu: String::new(),
            shields_cpu: String::new(),
            damage_player: 0,
        }
    }
}

/// Whether `s` holds exactly the characters of `lit`.
fn text_is(s: &String, lit: &str) -> (r: bool)
    ensures
        r == (s@ == lit@),
{
    *s == lit.to_string()
}

/// Whether the attacker of type `a` has the advantage over type `d`.
fn has_type_advantage(a: &String, d: &String) -> (r: bool)
    ensures
        r == type_advantage(a@, d@),
{
    (text_is(a, "Fuego") && text_is(d, "Planta")) || (text_is(a, "Agua") && text_is(d, "Fuego"))
        || (text_is(a, "Planta") && text_is(d, "Eléctrico")) || (text_is(a, "Eléctrico")
        && text_is(d, "Volador")) || (text_is(a, "Volador") && text_is(d, "Agua"))
}

/// How the random byte `r` scales an attack.
fn scale_of(r: u8) -> (s: AttackScale)
    ensures
        s == attack_scale(r),
{
    if r < 10 {
        AttackScale::Tenths
    } else if r < 100 {
        AttackScale::Hundredths
    } else if r < 255 {
        AttackScale::Thousandths
    } else {
        AttackScale::Zero
    }
}

/// The counter text `s` less one.
fn decrement(s: &String) -> (r: String)
    requires
        parse_u8_spec(s@) is Some,
        num(s@) > 0,
    ensures
        r@ == dec_text(s@),
        parse_u8_spec(r@) == Some((num(s@) - 1) as u8),
{
    let n = parse_u8(s.as_str()).unwrap();
    proof {
        lemma_parse_decimal((n - 1) as nat, 255);
    }
    u8_to_string(n - 1)
}

/// The registration that `player`'s burrito from `contract_id` makes for
/// incursion `id`.
pub open spec fn registration(id: u64, player: BurritoPlayerView, contract_id: Seq<char>) -> PlayerView {
    PlayerView {
        incursion_id: id,
        burrito_id: player.burrito_id,
        burrito_owner: player.burrito_owner,
        burrito_contract: contract_id,
    }
}

/// The state once `player`'s burrito from `contract_id` is registered for
/// the stored incursion `id`: the burrito joins the incursion's players, and
/// the player's registration is kept.
pub open spec fn after_register(
    s: IncursionState,
    id: u64,
    player: BurritoPlayerView,
    contract_id: Seq<char>,
) -> IncursionState {
    let info = s.incursions[id];
    IncursionState {
        incursions: s.incursions.insert(info.id, with_player(info, player)),
        players: s.players.insert(player.burrito_owner, registration(info.id, player, contract_id)),
        ..s
    }
}

/// Whether `player` owns one of the burritos registered for `inc`.
fn player_registered(inc: &Incursion, player: &String) -> (r: bool)
    ensures
        r == is_registered(inc@, player@),
{
    let mut i: usize = 0;
    while i < inc.players.len()
        invariant
            i <= inc.players@.len(),
            forall|j: int| 0 <= j < i ==> #[trigger] inc.players@[j].burrito_owner@ != player@,
        decreases inc.players@.len() - i,
    {
        if inc.players[i].burrito_owner == *player {
            assert(inc@.players[i as int].burrito_owner == player@);
            return true;
        }
        i = i + 1;
    }
    assert forall|j: int| 0 <= j < inc@.players.len() implies #[trigger] inc@.players[j].burrito_owner
        != player@ by {
        assert(inc@.players[j] == inc.players@[j]@);
    }
    false
}

impl Contract {
    /// Receives a burrito sent by `previous_owner_id` from the NFT contract
    /// `contract_id` to join the incursion that `msg` names.  Where the incursion
    /// does not exist, is full or has the player already, the burrito goes
    /// back (`Value(true)`); otherwise the burrito contract is asked about
    /// the burrito and `get_burrito_info` decides.
    pub fn nft_on_transfer(
        &self,
        contract_id: String,
        previous_owner_id: String,
        token_id: String,
        msg: MsgInput,
    ) -> (r: IncursionReply<bool>)
        requires
            registration_open(self@, msg.incursion_id, previous_owner_id@) ==> lookup_names_ok(
                self@,
            ),
        ensures
            !registration_open(self@, msg.incursion_id, previous_owner_id@) ==> r
                == IncursionReply::<bool>::Value(true),
            registration_open(self@, msg.incursion_id, previous_owner_id@) ==> (r matches IncursionReply::Promise(call)
                && call@ == (IncursionCallView::InspectBurrito {
                burrito_contract: self@.burrito_contract,
                token_id: token_id@,
                incursion_contract: self@.incursion_contract,
                incursion: self@.incursions[msg.incursion_id],
                player: BurritoPlayerView { burrito_id: token_id@, burrito_owner: previous_owner_id@ },
                contract_id: contract_id@,
            })),
    {
        let incursion_id = msg.incursion_id;
        let info = match self.incursions.get(&incursion_id) {
            None => {
                return IncursionReply::Value(true);
            },
            Some(info) => info,
        };
        proof {
            assert(incursions_view(self.incursions@)[incursion_id] == info@);
        }
        if info.registered_players == info.players_number {
            return IncursionReply::Value(true);
        }
        if player_registered(info, &previous_owner_id) {
            return IncursionReply::Value(true);
        }
        let new_player = BurritoPlayer { burrito_id: token_id.clone(), burrito_owner: previous_owner_id };
        IncursionReply::Promise(
            IncursionCall::InspectBurrito {
                burrito_contract: self.burrito_contract.clone(),
                token_id,
                incursion_contract: self.incursion_contract.clone(),
                incursion: info.duplicate(),
                player: new_player,
                contract_id,
            },
        )
    }

    /// Receives the burrito contract's answer about a burrito offered for
    /// `incursion`.  A failed lookup, or a burrito without lives, sends the
    /// burrito back (`Value(true)`); otherwise the owner is charged and the
    /// burrito is registered by `register_player_incursion`.
    pub fn get_burrito_info(
        &self,
        incursion: Incursion,
        player: BurritoPlayer,
        contract_id: String,
        lookup: PromiseOutcome<Burrito>,
    ) -> (r: IncursionReply<bool>)
        requires
            lookup matches PromiseOutcome::Successful(b) ==> {
                &&& parse_u8_spec(b.hp@) is Some
                &&& num(b.hp@) != 0 ==> charge_names_ok(self@)
            },
        ensures
            match lookup {
                PromiseOutcome::Failed => r == IncursionReply::<bool>::Value(true),
                PromiseOutcome::Successful(b) => if num(b.hp@) == 0 {
                    r == IncursionReply::<bool>::Value(true)
                } else {
                    r matches IncursionReply::Promise(call) && call@ == (
                    IncursionCallView::ChargeAndRegister {
                        strw_contract: self@.strw_contract,
                        account_id: player@.burrito_owner,
                        action: "Incursion"@,
                        treasury_id: self@.treasury_id,
                        incursion_contract: self@.incursion_contract,
                        incursion: incursion@,
                        player: player@,
                        contract_id: contract_id@,
                    })
                },
            },
    {
        match lookup {
            PromiseOutcome::Failed => IncursionReply::Value(true),
            PromiseOutcome::Successful(burrito) => {
                let hp = parse_u8(burrito.hp.as_str()).unwrap();
                if hp == 0 {
                    return IncursionReply::Value(true);
                }
                IncursionReply::Promise(
                    IncursionCall::ChargeAndRegister {
                        strw_contract: self.strw_contract.clone(),
                        account_id: player.burrito_owner.clone(),
                        action: "Incursion".to_string(),
                        treasury_id: self.treasury_id.clone(),
                        incursion_contract: self.incursion_contract.clone(),
                        incursion,
                        player,
                        contract_id,
                    },
                )
            },
        }
    }

    /// Registers `player`'s burrito, sent from `contract_id`, for the stored
    /// incursion with the id of `incursion`, and keeps the burrito
    /// (`false`).
    pub fn register_player_incursion(
        &mut self,
        incursion: Incursion,
        player: BurritoPlayer,
        contract_id: String,
    ) -> (r: bool)
        requires
            old(self)@.incursions.contains_key(incursion.id),
            old(self)@.incursions[incursion.id].registered_players < 255,
        ensures
            state_ok(old(self)@) ==> state_ok(final(self)@),
            !r,
            final(self)@ == after_register(old(self)@, incursion.id, player@, contract_id@),
    {
        let info = self.incursions.get(&incursion.id).unwrap();
        proof {
            assert(incursions_view(self.incursions@)[incursion.id] == info@);
        }
        let mut active_incursion = info.duplicate();
        let ghost before = active_incursion@;
        let added = player.duplicate();
        let ghost before_players = active_incursion.players@;
        active_incursion.players.push(added);
        active_incursion.registered_players = active_incursion.registered_players + 1;
        assert(players_view(active_incursion.players@) =~= players_view(before_players).push(player@));
        assert(active_incursion@ == with_player(before, player@));
        let id = active_incursion.id;
        let ghost old_map = self.incursions@;
        let ghost upd = active_incursion@;
        self.incursions.insert(id, active_incursion);
        assert(incursions_view(self.incursions@) =~= incursions_view(old_map).insert(id, upd));
        let registered = Player {
            incursion_id: id,
            burrito_id: player.burrito_id.clone(),
            burrito_owner: player.burrito_owner.clone(),
            burrito_contract: contract_id,
        };
        let ghost old_regs = self.player_incursion@;
        let ghost reg = registered@;
        self.player_incursion.insert(player.burrito_owner, registered);
        assert(registrations_view(self.player_incursion@) =~= registrations_view(old_regs).insert(
            player@.burrito_owner,
            reg,
        ));
        false
    }

    /// The incursion and registration of `signer`; placeholders, created at
    /// `now`, for a player with no registration.
    pub fn get_player_incursion(&self, signer: &str, now: u64) -> (r: IncrusionPlayer)
        requires
            self@.players.contains_key(signer@) ==> self@.incursions.contains_key(
                self@.players[signer@].incursion_id,
            ),
            !self@.players.contains_key(signer@) ==> now + TWO_HOURS_NANOS <= u64::MAX,
        ensures
            self@.players.contains_key(signer@) ==> r.incursion@ == self@.incursions[self@.players[signer@].incursion_id]
                && r.player@ == self@.players[signer@],
            !self@.players.contains_key(signer@) ==> r.incursion@ == null_incursion(
                now,
                HOUR_NANOS,
                TWO_HOURS_NANOS,
            ) && r.player@ == (PlayerView {
                incursion_id: 0,
                burrito_id: Seq::empty(),
                burrito_owner: Seq::empty(),
                burrito_contract: Seq::empty(),
            }),
    {
        match self.player_incursion.get(signer) {
            None => IncrusionPlayer {
                incursion: Incursion::null(now, HOUR_NANOS, TWO_HOURS_NANOS),
                player: Player::null(),
            },
            Some(player) => {
                proof {
                    assert(registrations_view(self.player_incursion@)[signer@] == player@);
                }
                let info = self.incursions.get(&player.incursion_id).unwrap();
                proof {
                    assert(incursions_view(self.incursions@)[player.incursion_id] == info@);
                }
                IncrusionPlayer { incursion: info.duplicate(), player: player.duplicate() }
            },
        }
    }

    /// Whether `account_id` has a battle room.
    pub fn is_in_battle_incursion(&self, account_id: &str) -> (r: bool)
        ensures
            r == self@.rooms.contains_key(account_id@),
    {
        self.mb_vs_bp.contains_key(account_id)
    }

    /// Whether `account_id` has a registration, and so a burrito to take
    /// back.
    pub fn can_withdraw_burrito(&self, account_id: &str) -> (r: bool)
        ensures
            r == self@.players.contains_key(account_id@),
    {
        self.player_incursion.contains_key(account_id)
    }

    /// The battle room of `caller` with its incursion.
    pub fn get_active_battle_room(&self, caller: &str) -> (r: Result<IncrusionRound, IncursionError>)
        requires
            self@.rooms.contains_key(caller@) ==> self@.incursions.contains_key(
                self@.rooms[caller@].incursion_id,
            ),
        ensures
            !self@.rooms.contains_key(caller@) ==> r == Err::<IncrusionRound, IncursionError>(
                IncursionError::NoRoom,
            ),
            self@.rooms.contains_key(caller@) ==> (r matches Ok(round) && round.room@
                == self@.rooms[caller@] && round.incursion@
                == self@.incursions[self@.rooms[caller@].incursion_id]),
    {
        match self.mb_vs_bp.get(caller) {
            None => Err(IncursionError::NoRoom),
            Some(room) => {
                proof {
                    assert(rooms_view(self.mb_vs_bp@)[caller@] == room@);
                }
                let incursion = self.incursions.get(&room.incursion_id).unwrap();
                proof {
                    assert(incursions_view(self.incursions@)[room.incursion_id] == incursion@);
                }
                Ok(IncrusionRound { incursion: incursion.duplicate(), room: room.duplicate() })
            },
        }
    }
}


/// The players of `ps` that have a battle room, in order.
pub open spec fn roster(ps: Seq<BurritoPlayerView>, rooms: Map<Seq<char>, RoomView>) -> Seq<Seq<char>>
    decreases ps.len(),
{
    if ps.len() == 0 {
        Seq::empty()
    } else {
        let rest = roster(ps.drop_last(), rooms);
        if rooms.contains_key(ps.last().burrito_owner) {
            rest.push(ps.last().burrito_owner)
        } else {
            rest
        }
    }
}

/// The answer to a withdrawal, texts as character sequences; the reward
/// basis as (share, damage).
pub struct WithdrawalView {
    pub complete: bool,
    pub win: Seq<char>,
    pub msg: Seq<char>,
    pub reward: Option<(u64, u32)>,
}

impl View for Withdrawal {
    type V = WithdrawalView;

    open spec fn view(&self) -> WithdrawalView {
        WithdrawalView {
            complete: self.complete,
            win: self.win@,
            msg: self.msg@,
            reward: match self.reward {
                Some(b) => Some((b.share, b.damage_player)),
                None => None,
            },
        }
    }
}

/// A refused withdrawal with message `msg`.
pub open spec fn refused_withdrawal(msg: Seq<char>) -> WithdrawalView {
    WithdrawalView { complete: false, win: Seq::empty(), msg, reward: None }
}

/// Why the withdrawal of `signer` at `now` is refused, if it is.
pub open spec fn withdraw_refusal(s: IncursionState, signer: Seq<char>, now: u64) -> Option<Seq<char>> {
    if !s.players.contains_key(signer) {
        Some("No te encuentras registrado en ninguna incursión"@)
    } else if s.players[signer].burrito_owner != signer {
        Some("No eres el dueño del burrito"@)
    } else if now < s.incursions[s.players[signer].incursion_id].finish_time {
        Some("Aún no termina la incursión"@)
    } else {
        None
    }
}

/// The inputs on which the withdrawal panics: the registration's owner is
/// no account name (the owner is compared as an account), or the
/// registration's incursion is gone.
pub open spec fn withdraw_panics(s: IncursionState, signer: Seq<char>) -> bool {
    let p = s.players[signer];
    &&& s.players.contains_key(signer)
    &&& {
        ||| !valid_account_id(p.burrito_owner)
        ||| p.burrito_owner == signer && !s.incursions.contains_key(p.incursion_id)
    }
}

/// The answer and the call of a granted withdrawal by `signer`, who never
/// opened a battle room: the burrito just goes back.
pub open spec fn plain_withdrawal(s: IncursionState, signer: Seq<char>, deposit: u128) -> (
    WithdrawalView,
    IncursionCallView,
) {
    let p = s.players[signer];
    (
        WithdrawalView {
            complete: true,
            win: Seq::empty(),
            msg: "No participaste en la batalla"@,
            reward: None,
        },
        IncursionCallView::ReturnBurrito {
            nft_contract: p.burrito_contract,
            receiver_id: signer,
            burrito_id: p.burrito_id,
            deposit,
        },
    )
}

/// The answer and the call of a granted withdrawal by `signer`, who has a
/// battle room, as the mega burrito `stands` or fell: while it stands the
/// burrito loses a life on its way back; once it fell the player also gets
/// a reward.
pub open spec fn battle_withdrawal(s: IncursionState, signer: Seq<char>, deposit: u128, stands: bool) -> (
    WithdrawalView,
    IncursionCallView,
) {
    let p = s.players[signer];
    let basis = reward_basis(s.incursions[p.incursion_id], s.rooms[signer].damage_player);
    if stands {
        (
            WithdrawalView {
                complete: true,
                win: "MegaBurrito"@,
                msg: "No vencieron al mega burrito"@,
                reward: None,
            },
            IncursionCallView::WoundAndReturn {
                burrito_contract: s.burrito_contract,
                burrito_id: p.burrito_id,
                nft_contract: p.burrito_contract,
                receiver_id: signer,
                deposit,
            },
        )
    } else {
        (
            WithdrawalView {
                complete: true,
                win: "Players"@,
                msg: "Vencieron al mega burrito"@,
                reward: Some(basis),
            },
            IncursionCallView::ReturnAndReward {
                nft_contract: p.burrito_contract,
                receiver_id: signer,
                burrito_id: p.burrito_id,
                deposit,
                strw_contract: s.strw_contract,
                share: basis.0,
                damage_player: basis.1,
            },
        )
    }
}

/// The contracts that the calls of a granted withdrawal by `signer` go to
/// have account names (the contract panics otherwise): the
/// registration's NFT contract, and with a battle room the burrito contract
/// while the mega burrito `stands`, the STRW contract once it fell.
pub open spec fn withdraw_names_ok(s: IncursionState, signer: Seq<char>, stands: bool) -> bool {
    &&& valid_account_id(s.players[signer].burrito_contract)
    &&& s.rooms.contains_key(signer) ==> if stands {
        valid_account_id(s.burrito_contract)
    } else {
        valid_account_id(s.strw_contract)
    }
}

/// The state after `signer` took the burrito back from a battle: the
/// registration and the battle room are gone.
pub open spec fn after_battle_withdraw(s: IncursionState, signer: Seq<char>) -> IncursionState {
    IncursionState { players: s.players.remove(signer), rooms: s.rooms.remove(signer), ..s }
}

impl Contract {
    /// Opens a battle room for `caller` at `now`: asks the burrito contract
    /// for the registered burrito, and `save_battle_room` builds the room.
    /// A caller with no registration gets the empty room; a caller with a
    /// room, or whose incursion's mega burrito has fallen (as `depleted`
    /// tests its health text), or whose incursion has not started or has
    /// ended, is refused.
    pub fn create_battle_room(
        &self,
        caller: String,
        now: u64,
        depleted: impl Fn(&String) -> bool,
    ) -> (r: Result<IncursionReply<BPvsMB>, IncursionError>)
        requires
            forall|h: &String| depleted.requires((h,)),
            self@.players.contains_key(caller@) && !self@.rooms.contains_key(caller@)
                ==> self@.incursions.contains_key(self@.players[caller@].incursion_id),
            self@.players.contains_key(caller@) && !self@.rooms.contains_key(caller@) && ({
                let inc = self@.incursions[self@.players[caller@].incursion_id];
                inc.start_time <= now <= inc.finish_time
            }) ==> forall|d: bool|
                depleted.ensures(
                    (&self.incursions@[self@.players[caller@].incursion_id].mega_burrito.health,),
                    d,
                ) ==> d || lookup_names_ok(self@),
        ensures
            !self@.players.contains_key(caller@) ==> (r matches Ok(IncursionReply::Value(room))
                && room@ == null_room()),
            self@.players.contains_key(caller@) && self@.rooms.contains_key(caller@) ==> r
                == Err::<IncursionReply<BPvsMB>, IncursionError>(IncursionError::RoomExists),
            self@.players.contains_key(caller@) && !self@.rooms.contains_key(caller@) ==> {
                let p = self@.players[caller@];
                let inc = self@.incursions[p.incursion_id];
                exists|d: bool|
                    {
                        &&& depleted.ensures(
                            (&self.incursions@[p.incursion_id].mega_burrito.health,),
                            d,
                        )
                        &&& if d {
                            r == Err::<IncursionReply<BPvsMB>, IncursionError>(
                                IncursionError::MegaBurritoDefeated,
                            )
                        } else if now < inc.start_time {
                            r == Err::<IncursionReply<BPvsMB>, IncursionError>(
                                IncursionError::NotStarted,
                            )
                        } else if now > inc.finish_time {
                            r == Err::<IncursionReply<BPvsMB>, IncursionError>(
                                IncursionError::AlreadyFinished,
                            )
                        } else {
                            r matches Ok(IncursionReply::Promise(call)) && call@ == (
                            IncursionCallView::FetchBattleBurrito {
                                burrito_contract: self@.burrito_contract,
                                burrito_id: p.burrito_id,
                                incursion_contract: self@.incursion_contract,
                                player: p,
                                incursion: inc,
                                player_id: caller@,
                            })
                        }
                    }
            },
    {
        let player = match self.player_incursion.get(caller.as_str()) {
            None => {
                return Ok(IncursionReply::Value(BPvsMB::null()));
            },
            Some(player) => player,
        };
        proof {
            assert(registrations_view(self.player_incursion@)[caller@] == player@);
        }
        if self.mb_vs_bp.contains_key(caller.as_str()) {
            return Err(IncursionError::RoomExists);
        }
        let incursion = self.incursions.get(&player.incursion_id).unwrap();
        proof {
            assert(incursions_view(self.incursions@)[player.incursion_id] == incursion@);
        }
        let d = depleted(&incursion.mega_burrito.health);
        if d {
            return Err(IncursionError::MegaBurritoDefeated);
        }
        if now < incursion.start_time {
            return Err(IncursionError::NotStarted);
        }
        if now > incursion.finish_time {
            return Err(IncursionError::AlreadyFinished);
        }
        Ok(
            IncursionReply::Promise(
                IncursionCall::FetchBattleBurrito {
                    burrito_contract: self.burrito_contract.clone(),
                    burrito_id: player.burrito_id.clone(),
                    incursion_contract: self.incursion_contract.clone(),
                    player: player.duplicate(),
                    incursion: incursion.duplicate(),
                    player_id: caller,
                },
            ),
        )
    }

    /// Receives the burrito contract's answer about the burrito of
    /// `player` and saves the battle room of `player_id` against the mega
    /// burrito of `incursion`; the empty room, and nothing saved, when the
    /// lookup failed.
    pub fn save_battle_room(
        &mut self,
        player: Player,
        incursion: Incursion,
        player_id: String,
        lookup: PromiseOutcome<Burrito>,
    ) -> (r: BPvsMB)
        requires
            lookup matches PromiseOutcome::Successful(b) ==> battle_stats_ok(
                b.attack@,
                b.defense@,
                b.speed@,
                incursion.mega_burrito.speed@,
            ),
        ensures
            state_ok(old(self)@) ==> state_ok(final(self)@),
            match lookup {
                PromiseOutcome::Failed => r@ == null_room() && final(self)@ == old(self)@,
                PromiseOutcome::Successful(b) => {
                    &&& r@ == new_room(
                        player@,
                        incursion@,
                        b.name@,
                        b.burrito_type@,
                        b.hp@,
                        b.attack@,
                        b.defense@,
                        b.speed@,
                        b.level@,
                        b.media@,
                    )
                    &&& final(self)@ == (IncursionState {
                        rooms: old(self)@.rooms.insert(player_id@, r@),
                        ..old(self)@
                    })
                },
            },
    {
        match lookup {
            PromiseOutcome::Failed => BPvsMB::null(),
            PromiseOutcome::Successful(b) => {
                let attack = parse_u8(b.attack.as_str()).unwrap();
                let defense = parse_u8(b.defense.as_str()).unwrap();
                let speed = parse_u8(b.speed.as_str()).unwrap();
                let health = attack + defense + speed;
                let mega_speed = parse_u8(incursion.mega_burrito.speed.as_str()).unwrap();
                let turn = if mega_speed > speed {
                    "CPU".to_string()
                } else {
                    "Player".to_string()
                };
                let room = BPvsMB {
                    turn,
                    burrito_player_id: player.burrito_id,
                    name: b.name,
                    burrito_type: b.burrito_type,
                    start_health: u8_to_string(health),
                    health: u8_to_string(health),
                    hp: b.hp,
                    attack: b.attack,
                    defense: b.defense,
                    speed: b.speed,
                    level: b.level,
                    media: b.media,
                    strong_attack_player: "3".to_string(),
                    shields_player: "3".to_string(),
                    incursion_id: incursion.id,
                    strong_attack_cpu: "3".to_string(),
                    shields_cpu: "3".to_string(),
                    damage_player: 0,
                };
                let ghost old_rooms = self.mb_vs_bp@;
                let ghost rv = room@;
                let stored = room.duplicate();
                self.mb_vs_bp.insert(player_id, stored);
                assert(rooms_view(self.mb_vs_bp@) =~= rooms_view(old_rooms).insert(player_id@, rv));
                room
            },
        }
    }

    /// The players of incursion `incursion_id` that have a battle room, in
    /// registration order, each with the room's picture and whether the
    /// room's health passes `alive` (a test on the health text); nobody for
    /// an unknown incursion.
    pub fn burritos_incursion_info(&self, incursion_id: u64, alive: impl Fn(&String) -> bool) -> (r:
        Vec<PlayerInBattle>)
        requires
            forall|h: &String| alive.requires((h,)),
        ensures
            !self@.incursions.contains_key(incursion_id) ==> r@.len() == 0,
            self@.incursions.contains_key(incursion_id) ==> {
                let names = roster(self@.incursions[incursion_id].players, self@.rooms);
                &&& r@.len() == names.len()
                &&& forall|i: int|
                    0 <= i < names.len() ==> {
                        &&& (#[trigger] r@[i]).player_name@ == names[i]
                        &&& r@[i].media@ == self@.rooms[names[i]].media
                        &&& alive.ensures((&self.mb_vs_bp@[names[i]].health,), r@[i].is_alive)
                    }
            },
    {
        let mut players: Vec<PlayerInBattle> = Vec::new();
        let info = match self.incursions.get(&incursion_id) {
            None => {
                return players;
            },
            Some(info) => info,
        };
        proof {
            assert(incursions_view(self.incursions@)[incursion_id] == info@);
        }
        let ghost ps = info@.players;
        let ghost rooms = self@.rooms;
        let mut i: usize = 0;
        while i < info.players.len()
            invariant
                i <= info.players@.len(),
                ps == players_view(info.players@),
                rooms == self@.rooms,
                players@.len() == roster(ps.take(i as int), rooms).len(),
                forall|j: int|
                    0 <= j < players@.len() ==> {
                        let names = roster(ps.take(i as int), rooms);
                        &&& (#[trigger] players@[j]).player_name@ == names[j]
                        &&& players@[j].media@ == rooms[names[j]].media
                        &&& alive.ensures((&self.mb_vs_bp@[names[j]].health,), players@[j].is_alive)
                    },
                forall|h: &String| alive.requires((h,)),
            decreases info.players@.len() - i,
        {
            let owner = &info.players[i].burrito_owner;
            let ghost before = roster(ps.take(i as int), rooms);
            assert(ps.take(i + 1).drop_last() =~= ps.take(i as int));
            assert(ps.take(i + 1).last() == info.players@[i as int]@);
            match self.mb_vs_bp.get(owner.as_str()) {
                None => {
                    assert(!rooms_view(self.mb_vs_bp@).contains_key(owner@));
                    assert(roster(ps.take(i + 1), rooms) == before);
                },
                Some(room) => {
                    assert(rooms_view(self.mb_vs_bp@)[owner@] == room@);
                    let is_alive = alive(&room.health);
                    players.push(
                        PlayerInBattle {
                            player_name: owner.clone(),
                            media: room.media.clone(),
                            is_alive,
                        },
                    );
                    assert(roster(ps.take(i + 1), rooms) == before.push(owner@));
                },
            }
            i = i + 1;
        }
        assert(ps.take(info.players@.len() as int) =~= ps);
        players
    }

    /// Takes back the burrito of `signer`, who attached `deposit`, at `now`.
    /// Refused for a player with no registration, for a registration of
    /// another owner, and before the incursion ends.  A player without a
    /// battle room just gets the burrito back.  Otherwise the registration
    /// and the room are dropped: while the mega burrito stands (as
    /// `standing` tests its health text) the burrito loses a life on its
    /// way back; when it fell, the player gets the burrito and a reward.
    pub fn withdraw_burrito_owner(
        &mut self,
        signer: String,
        deposit: u128,
        now: u64,
        standing: impl Fn(&String) -> bool,
    ) -> (r: (Withdrawal, Option<IncursionCall>))
        requires
            forall|h: &String| standing.requires((h,)),
            !withdraw_panics(old(self)@, signer@),
            withdraw_refusal(old(self)@, signer@, now) is None ==> valid_account_id(
                old(self)@.players[signer@].burrito_contract,
            ),
            withdraw_refusal(old(self)@, signer@, now) is None && old(self)@.rooms.contains_key(
                signer@,
            ) ==> forall|b: bool|
                standing.ensures(
                    (&old(self).incursions@[old(self)@.players[signer@].incursion_id].mega_burrito.health,),
                    b,
                ) ==> withdraw_names_ok(old(self)@, signer@, b),
        ensures
            state_ok(old(self)@) ==> state_ok(final(self)@),
            match withdraw_refusal(old(self)@, signer@, now) {
                Some(msg) => r.0@ == refused_withdrawal(msg) && r.1 is None && final(self)@ == old(self)@,
                None => if !old(self)@.rooms.contains_key(signer@) {
                    let (answer, call) = plain_withdrawal(old(self)@, signer@, deposit);
                    &&& r.0@ == answer
                    &&& r.1 matches Some(c) && c@ == call
                    &&& final(self)@ == old(self)@
                } else {
                    &&& final(self)@ == after_battle_withdraw(old(self)@, signer@)
                    &&& exists|b: bool|
                        {
                            &&& #[trigger] standing.ensures(
                                (&old(self).incursions@[old(self)@.players[signer@].incursion_id].mega_burrito.health,),
                                b,
                            )
                            &&& r.0@ == battle_withdrawal(old(self)@, signer@, deposit, b).0
                            &&& r.1 matches Some(c) && c@ == battle_withdrawal(
                                old(self)@,
                                signer@,
                                deposit,
                                b,
                            ).1
                        }
                },
            },
    {
        self.try_withdraw_burrito_owner(signer, deposit, now, standing).unwrap()
    }

    /// The withdrawal, where it does not panic; `None`, and nothing changed,
    /// where the contract panics: the registration's owner is no valid
    /// account name, its incursion is gone, or a granted withdrawal would
    /// address a call to a contract whose name is no account name (see
    /// `withdraw_names_ok`).
    pub fn try_withdraw_burrito_owner(
        &mut self,
        signer: String,
        deposit: u128,
        now: u64,
        standing: impl Fn(&String) -> bool,
    ) -> (r: Option<(Withdrawal, Option<IncursionCall>)>)
        requires
            forall|h: &String| standing.requires((h,)),
        ensures
            state_ok(old(self)@) ==> state_ok(final(self)@),
            r is None ==> final(self)@ == old(self)@,
            withdraw_panics(old(self)@, signer@) ==> r is None,
            !withdraw_panics(old(self)@, signer@) ==> match withdraw_refusal(old(self)@, signer@, now) {
                Some(msg) => r matches Some(out) && out.0@ == refused_withdrawal(msg) && out.1 is None
                    && final(self)@ == old(self)@,
                None => if !old(self)@.rooms.contains_key(signer@) {
                    let (answer, call) = plain_withdrawal(old(self)@, signer@, deposit);
                    if !withdraw_names_ok(old(self)@, signer@, true) {
                        r is None
                    } else {
                        &&& r matches Some(out) && out.0@ == answer && (out.1 matches Some(c) && c@
                            == call)
                        &&& final(self)@ == old(self)@
                    }
                } else {
                    exists|b: bool|
                        {
                            &&& #[trigger] standing.ensures(
                                (&old(self).incursions@[old(self)@.players[signer@].incursion_id].mega_burrito.health,),
                                b,
                            )
                            &&& if !withdraw_names_ok(old(self)@, signer@, b) {
                                r is None
                            } else {
                                let (answer, call) = battle_withdrawal(old(self)@, signer@, deposit, b);
                                &&& r matches Some(out) && out.0@ == answer && (out.1 matches Some(c)
                                    && c@ == call)
                                &&& final(self)@ == after_battle_withdraw(old(self)@, signer@)
                            }
                        }
                },
            },
    {
        let player = match self.player_incursion.get(signer.as_str()) {
            None => {
                return Some(
                    (
                        Withdrawal {
                            complete: false,
                            win: String::new(),
                            msg: "No te encuentras registrado en ninguna incursión".to_string(),
                            reward: None,
                        },
                        None,
                    ),
                );
            },
            Some(player) => player,
        };
        proof {
            assert(registrations_view(self.player_incursion@)[signer@] == player@);
        }
        if !is_valid_account_id(player.burrito_owner.as_str()) {
            return None;
        }
        if signer != player.burrito_owner {
            return Some(
                (
                    Withdrawal {
                        complete: false,
                        win: String::new(),
                        msg: "No eres el dueño del burrito".to_string(),
                        reward: None,
                    },
                    None,
                ),
            );
        }
        let incursion = match self.incursions.get(&player.incursion_id) {
            None => {
                return None;
            },
            Some(incursion) => incursion,
        };
        proof {
            assert(incursions_view(self.incursions@)[player.incursion_id] == incursion@);
        }
        if now < incursion.finish_time {
            return Some(
                (
                    Withdrawal {
                        complete: false,
                        win: String::new(),
                        msg: "Aún no termina la incursión".to_string(),
                        reward: None,
                    },
                    None,
                ),
            );
        }
        let room = match self.mb_vs_bp.get(signer.as_str()) {
            None => {
                if !is_valid_account_id(player.burrito_contract.as_str()) {
                    return None;
                }
                let call = IncursionCall::ReturnBurrito {
                    nft_contract: player.burrito_contract.clone(),
                    receiver_id: signer.clone(),
                    burrito_id: player.burrito_id.clone(),
                    deposit,
                };
                return Some(
                    (
                        Withdrawal {
                            complete: true,
                            win: String::new(),
                            msg: "No participaste en la batalla".to_string(),
                            reward: None,
                        },
                        Some(call),
                    ),
                );
            },
            Some(room) => room,
        };
        proof {
            assert(rooms_view(self.mb_vs_bp@)[signer@] == room@);
        }
        let stands = standing(&incursion.mega_burrito.health);
        proof {
            assert(standing.ensures(
                (&old(self).incursions@[old(self)@.players[signer@].incursion_id].mega_burrito.health,),
                stands,
            ));
        }
        let names_ok = is_valid_account_id(player.burrito_contract.as_str()) && if stands {
            is_valid_account_id(self.burrito_contract.as_str())
        } else {
            is_valid_account_id(self.strw_contract.as_str())
        };
        if !names_ok {
            return None;
        }
        let burrito_id = player.burrito_id.clone();
        let nft_contract = player.burrito_contract.clone();
        let share = incursion.rewards / 100;
        let damage_player = room.damage_player;
        let out = if stands {
            (
                Withdrawal {
                    complete: true,
                    win: "MegaBurrito".to_string(),
                    msg: "No vencieron al mega burrito".to_string(),
                    reward: None,
                },
                Some(
                    IncursionCall::WoundAndReturn {
                        burrito_contract: self.burrito_contract.clone(),
                        burrito_id,
                        nft_contract,
                        receiver_id: signer.clone(),
                        deposit,
                    },
                ),
            )
        } else {
            (
                Withdrawal {
                    complete: true,
                    win: "Players".to_string(),
                    msg: "Vencieron al mega burrito".to_string(),
                    reward: Some(RewardBasis { share, damage_player }),
                },
                Some(
                    IncursionCall::ReturnAndReward {
                        nft_contract,
                        receiver_id: signer.clone(),
                        burrito_id,
                        deposit,
                        strw_contract: self.strw_contract.clone(),
                        reward: RewardBasis { share, damage_player },
                    },
                ),
            )
        };
        let ghost old_regs = self.player_incursion@;
        let ghost old_rooms = self.mb_vs_bp@;
        self.player_incursion.remove(signer.as_str());
        self.mb_vs_bp.remove(signer.as_str());
        assert(registrations_view(self.player_incursion@) =~= registrations_view(old_regs).remove(
            signer@,
        ));
        assert(rooms_view(self.mb_vs_bp@) =~= rooms_view(old_rooms).remove(signer@));
        Some(out)
    }
}


/// The state and the answer after an accepted move that strikes, with the
/// strike's result (`new_health`, `down`, `damage`): the room is saved, and
/// on the player's strike the incursion too.
pub open spec fn battle_after_strike(
    s: IncursionState,
    signer: Seq<char>,
    room1: RoomView,
    player_turn: bool,
    now: u64,
    new_health: Seq<char>,
    down: bool,
    damage: u32,
) -> (IncursionState, IncursionView, RoomView) {
    let id = room_of(s, signer).incursion_id;
    let (inc2, room2) = after_strike(
        room_incursion(s, signer),
        room1,
        player_turn,
        now,
        new_health,
        down,
        damage,
    );
    let rooms = s.rooms.insert(signer, room2);
    if player_turn {
        (IncursionState { incursions: s.incursions.insert(id, inc2), rooms, ..s }, inc2, room2)
    } else {
        (IncursionState { rooms, ..s }, inc2, room2)
    }
}

impl Contract {
    /// Plays the move `type_move` of `signer` at `now` in the signer's battle
    /// room (`1` weak attack, `2` strong attack, `3` no defense, `4`
    /// defense), with the random bytes `seed`.  `depleted` tests the mega
    /// burrito's health text; `strike` does a strike's floating-point
    /// arithmetic (see `StrikeRequest`).  After the incursion's end, or when
    /// the mega burrito has fallen, the room and the incursion are answered
    /// unchanged; see `battle_refusal` for refused moves and `battle_step`
    /// and `after_strike` for the rest.
    pub fn battle_player_incursion(
        &mut self,
        signer: &String,
        now: u64,
        seed: &Vec<u8>,
        type_move: &String,
        depleted: impl Fn(&String) -> bool,
        strike: impl Fn(&StrikeRequest) -> StrikeOutcome,
    ) -> (r: Result<IncrusionRound, IncursionError>)
        requires
            forall|h: &String| depleted.requires((h,)),
            forall|q: &StrikeRequest| strike.requires((q,)),
            battle_ok(old(self)@, signer@, now, type_move@),
            old(self)@.rooms.contains_key(signer@) && !battle_over(old(self)@, signer@, now)
                && battle_refusal(old(self)@, signer@, now, type_move@) is None ==> forall|d: bool|
                depleted.ensures(
                    (&old(self).incursions@[room_of(old(self)@, signer@).incursion_id].mega_burrito.health,),
                    d,
                ) && !d ==> step_ok(old(self)@, signer@, seed@, type_move@),
        ensures
            state_ok(old(self)@) ==> state_ok(final(self)@),
            match battle_refusal(old(self)@, signer@, now, type_move@) {
                Some(e) => r == Err::<IncrusionRound, IncursionError>(e) && final(self)@ == old(self)@,
                None => r matches Ok(round) && {
                    let room = room_of(old(self)@, signer@);
                    let inc = room_incursion(old(self)@, signer@);
                    let unchanged = round.room@ == room && round.incursion@ == inc && final(self)@
                        == old(self)@;
                    if battle_over(old(self)@, signer@, now) {
                        unchanged
                    } else {
                        exists|d: bool|
                            {
                                &&& depleted.ensures(
                                    (&old(self).incursions@[room.incursion_id].mega_burrito.health,),
                                    d,
                                )
                                &&& if d {
                                    unchanged
                                } else {
                                    match battle_step(old(self)@, signer@, type_move@, seed@[0]) {
                                        BattleStep::Save(room2) => {
                                            &&& round.room@ == room2
                                            &&& round.incursion@ == inc
                                            &&& final(self)@ == (IncursionState {
                                                rooms: old(self)@.rooms.insert(signer@, room2),
                                                ..old(self)@
                                            })
                                        },
                                        BattleStep::Strike { room: room1, player_turn, strong } => {
                                            exists|q: StrikeRequest, o: StrikeOutcome|
                                                {
                                                    &&& q@ == strike_of(
                                                        room1,
                                                        inc.mega_burrito,
                                                        player_turn,
                                                        strong,
                                                        seed@[0],
                                                    )
                                                    &&& strike.ensures((&q,), o)
                                                    &&& ({
                                                        let (s2, inc2, room2) = battle_after_strike(
                                                            old(self)@,
                                                            signer@,
                                                            room1,
                                                            player_turn,
                                                            now,
                                                            o.new_health@,
                                                            o.defender_down,
                                                            o.damage_player,
                                                        );
                                                        &&& final(self)@ == s2
                                                        &&& round.incursion@ == inc2
                                                        &&& round.room@ == room2
                                                    })
                                                }
                                        },
                                    }
                                }
                            }
                    }
                },
            },
    {
        let stored_room = match self.mb_vs_bp.get(signer.as_str()) {
            None => {
                return Err(IncursionError::NoActiveBattle);
            },
            Some(room) => room,
        };
        proof {
            assert(rooms_view(self.mb_vs_bp@)[signer@] == stored_room@);
        }
        let mut room = stored_room.duplicate();
        let id = room.incursion_id;
        let stored_incursion = self.incursions.get(&id).unwrap();
        proof {
            assert(incursions_view(self.incursions@)[id] == stored_incursion@);
        }
        let mut incursion = stored_incursion.duplicate();
        if now > incursion.finish_time {
            return Ok(IncrusionRound { incursion, room });
        }
        let attack_move = text_is(type_move, "1") || text_is(type_move, "2");
        let defense_move = text_is(type_move, "3") || text_is(type_move, "4");
        if attack_move && text_is(&room.turn, "CPU") {
            return Err(IncursionError::MustDefend);
        }
        if defense_move && text_is(&room.turn, "Player") {
            return Err(IncursionError::MustAttack);
        }
        if text_is(type_move, "2") && parse_u8(room.strong_attack_player.as_str()).unwrap() == 0 {
            return Err(IncursionError::NoStrongAttacks);
        }
        if text_is(type_move, "4") && parse_u8(room.shields_player.as_str()).unwrap() == 0 {
            return Err(IncursionError::NoShields);
        }
        let down_already = depleted(&stored_incursion.mega_burrito.health);
        if down_already {
            return Ok(IncrusionRound { incursion, room });
        }
        let player_turn = text_is(&room.turn, "Player");
        let strong: bool;
        if player_turn {
            let r0 = seed[0];
            if text_is(type_move, "2") {
                room.strong_attack_player = decrement(&room.strong_attack_player);
            }
            let shields_cpu = parse_u8(room.shields_cpu.as_str()).unwrap();
            if shields_cpu > 0 && r0 % 2 == 1 {
                room.shields_cpu = decrement(&room.shields_cpu);
                room.turn = "CPU".to_string();
                let ghost old_rooms = self.mb_vs_bp@;
                let ghost rv = room@;
                self.mb_vs_bp.insert(signer.clone(), room.duplicate());
                assert(rooms_view(self.mb_vs_bp@) =~= rooms_view(old_rooms).insert(signer@, rv));
                return Ok(IncrusionRound { incursion, room });
            }
            strong = text_is(type_move, "2");
        } else {
            let mut cpu_strong = false;
            let strong_attack_cpu = parse_u8(room.strong_attack_cpu.as_str()).unwrap();
            if strong_attack_cpu > 0 {
                let r0 = seed[0];
                let shields_player = parse_u8(room.shields_player.as_str()).unwrap();
                if shields_player == 0 || r0 % 2 == 1 {
                    room.strong_attack_cpu = decrement(&room.strong_attack_cpu);
                    cpu_strong = true;
                }
            }
            if text_is(type_move, "4") {
                room.shields_player = decrement(&room.shields_player);
                room.turn = "Player".to_string();
                let ghost old_rooms = self.mb_vs_bp@;
                let ghost rv = room@;
                self.mb_vs_bp.insert(signer.clone(), room.duplicate());
                assert(rooms_view(self.mb_vs_bp@) =~= rooms_view(old_rooms).insert(signer@, rv));
                return Ok(IncrusionRound { incursion, room });
            }
            strong = cpu_strong;
        }
        let r0 = seed[0];
        let attacker: BurritoAttacker;
        let defender: BurritoDefender;
        let defender_health: String;
        if player_turn {
            attacker = BurritoAttacker {
                burrito_type: room.burrito_type.clone(),
                attack: room.attack.clone(),
                level: room.level.clone(),
            };
            defender = BurritoDefender {
                burrito_type: incursion.mega_burrito.burrito_type.clone(),
                level: incursion.mega_burrito.level.clone(),
            };
            defender_health = incursion.mega_burrito.health.clone();
        } else {
            attacker = BurritoAttacker {
                burrito_type: incursion.mega_burrito.burrito_type.clone(),
                attack: incursion.mega_burrito.attack.clone(),
                level: incursion.mega_burrito.level.clone(),
            };
            defender = BurritoDefender {
                burrito_type: room.burrito_type.clone(),
                level: room.level.clone(),
            };
            defender_health = room.health.clone();
        }
        let request = StrikeRequest {
            rand: r0,
            scale: scale_of(r0),
            advantage: has_type_advantage(&attacker.burrito_type, &defender.burrito_type),
            attack: attacker.attack,
            strong,
            defender_health,
            damage_player: room.damage_player,
        };
        let outcome = strike(&request);
        let ghost room1 = room@;
        if player_turn {
            incursion.mega_burrito.health = outcome.new_health;
            if outcome.defender_down {
                incursion.finish_time = now;
            } else {
                room.turn = "CPU".to_string();
            }
            room.damage_player = outcome.damage_player;
            let ghost old_map = self.incursions@;
            let ghost iv = incursion@;
            self.incursions.insert(id, incursion.duplicate());
            assert(incursions_view(self.incursions@) =~= incursions_view(old_map).insert(id, iv));
        } else {
            room.health = outcome.new_health;
            if !outcome.defender_down {
                room.turn = "Player".to_string();
            }
        }
        let ghost old_rooms = self.mb_vs_bp@;
        let ghost rv = room@;
        self.mb_vs_bp.insert(signer.clone(), room.duplicate());
        assert(rooms_view(self.mb_vs_bp@) =~= rooms_view(old_rooms).insert(signer@, rv));
        Ok(IncrusionRound { incursion, room })
    }
}

} // verus!
