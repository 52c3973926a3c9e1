//! The incursion: players register a burrito for an incursion, each fights
//! the incursion's mega burrito in a battle room, and once the incursion is
//! over they take their burrito back, with a reward when the mega burrito
//! fell.
//!
//! Each method takes what the contract reads from the blockchain context (the
//! caller, the block time, the random seed, the attached deposit) as
//! arguments, and hands back the cross-contract calls it asks for as values
//! of `IncursionCall`.  Floating-point arithmetic on health texts stays with
//! the caller, who passes it in as closures.

use vstd::prelude::*;
use crate::text::labelled;
use std::collections::HashMap;
use crate::account_map::AccountMap;
use crate::decimal::{decimal, parse_u8_spec};
use vstd::std_specs::iter::IteratorSpec;

verus! {

/// Block-time nanoseconds in one hour.
pub const HOUR_NANOS: u64 = 3600000000000;

/// Block-time nanoseconds in two hours.
pub const TWO_HOURS_NANOS: u64 = 7200000000000;

/// Block-time nanoseconds in twelve hours.
pub const HALF_DAY_NANOS: u64 = 43200000000000;

/// Block-time nanoseconds in one day.
pub const DAY_NANOS: u64 = 86400000000000;

/// Block-time nanoseconds that must pass after an incursion's end before the
/// next one is created: thirty hours.
pub const COOLDOWN_NANOS: u64 = 108000000000000;

/// Keys of the contract's persistent collections.
#[derive(Debug)]
pub enum StorageKey {
    Incursions,
    Battles,
    ByPlayerId,
    IncursionsInAwait,
    IncursionsInAwaitInner { incursion_id: u64 },
}

/// The phase of an incursion.
#[derive(PartialEq, Eq, Structural, Clone, Copy, Debug)]
pub enum IncursionStatus {
    WaitingPlayers,
    InProgress,
    Finished,
    Null,
}

/// A burrito, as the burrito contract describes it.
#[derive(Debug)]
pub struct Burrito {
    pub owner_id: String,
    pub name: String,
    pub description: String,
    pub burrito_type: String,
    pub hp: String,
    pub attack: String,
    pub defense: String,
    pub speed: String,
    pub win: String,
    pub global_win: String,
    pub level: String,
    pub media: String,
}

/// The side that strikes in a round.
#[derive(Debug)]
pub struct BurritoAttacker {
    pub burrito_type: String,
    pub attack: String,
    pub level: String,
}

/// The side that is struck in a round.
#[derive(Debug)]
pub struct BurritoDefender {
    pub burrito_type: String,
    pub level: String,
}

/// The mega burrito that the players of an incursion fight.
#[derive(Debug)]
pub struct MegaBurrito {
    pub name: String,
    pub burrito_type: String,
    pub start_health: String,
    pub health: String,
    pub attack: String,
    pub defense: String,
    pub speed: String,
    pub level: String,
}

/// A registered burrito and its owner.
#[derive(Debug)]
pub struct BurritoPlayer {
    pub burrito_id: String,
    pub burrito_owner: String,
}

/// A player's registration: the incursion, the burrito and the NFT contract
/// it came from.
#[derive(Debug)]
pub struct Player {
    pub incursion_id: u64,
    pub burrito_id: String,
    pub burrito_owner: String,
    pub burrito_contract: String,
}

/// An incursion.
#[derive(Debug)]
pub struct Incursion {
    pub id: u64,
    pub status: IncursionStatus,
    pub create_time: u64,
    pub start_time: u64,
    pub finish_time: u64,
    pub players_number: u8,
    pub registered_players: u8,
    pub win: String,
    pub mega_burrito: MegaBurrito,
    pub players: Vec<BurritoPlayer>,
    pub rewards: u64,
}

/// An incursion together with a player's registration.
#[derive(Debug)]
pub struct IncrusionPlayer {
    pub incursion: Incursion,
    pub player: Player,
}

/// An incursion together with a player's battle room.
#[derive(Debug)]
pub struct IncrusionRound {
    pub incursion: Incursion,
    pub room: BPvsMB,
}

/// A battle room: one player's burrito against the mega burrito.  The
/// counters of strong attacks and shields are decimal texts; the damage the
/// player has dealt is a 32-bit float, kept here as its bit pattern.
#[derive(Debug)]
pub struct BPvsMB {
    pub turn: String,
    pub burrito_player_id: String,
    pub name: String,
    pub burrito_type: String,
    pub start_health: String,
    pub health: String,
    pub hp: String,
    pub attack: String,
    pub defense: String,
    pub speed: String,
    pub level: String,
    pub media: String,
    pub strong_attack_player: String,
    pub shields_player: String,
    pub incursion_id: u64,
    pub strong_attack_cpu: String,
    pub shields_cpu: String,
    pub damage_player: u32,
}

/// The message that a player sends with the burrito: the incursion to join.
#[derive(Debug)]
pub struct MsgInput {
    pub incursion_id: u64,
}

/// A player of an incursion who has a battle room, and whether the
/// player's burrito still stands.
#[derive(Debug)]
pub struct PlayerInBattle {
    pub player_name: String,
    pub media: String,
    pub is_alive: bool,
}

/// The state of the incursion contract.
pub struct Contract {
    pub owner_account_id: String,
    pub treasury_id: String,
    pub incursions: HashMap<u64, Incursion>,
    pub mb_vs_bp: AccountMap<BPvsMB>,
    pub player_incursion: AccountMap<Player>,
    pub last_id: u64,
    pub burrito_contract: String,
    pub incursion_contract: String,
    pub strw_contract: String,
}

/// The state layout of the contract's previous version.
pub struct OldContract {
    pub owner_account_id: String,
    pub treasury_id: String,
    pub incursions: HashMap<u64, Incursion>,
    pub mb_vs_bp: AccountMap<BPvsMB>,
    pub player_incursion: AccountMap<Player>,
    pub last_id: u64,
    pub burrito_contract: String,
    pub incursion_contract: String,
    pub strw_contract: String,
}

/// The methods of other contracts that the incursion calls.
pub trait ExternsContract {
    fn nft_transfer(&mut self, receiver_id: String, token_id: String);

    fn get_balance_and_transfer_minigames(
        &self,
        account_id: String,
        action: String,
        treasury_id: String,
    ) -> bool;

    fn get_burrito_incursion(&self, burrito_id: String) -> Burrito;

    fn decrease_all_burrito_hp(&self, burrito_id: String) -> Burrito;

    fn reward_player(&self, player_owner_id: String, tokens_mint: String) -> String;
}

/// The outcome of a call to another contract, as a callback receives it.
#[derive(Debug)]
pub enum PromiseOutcome<T> {
    Failed,
    Successful(T),
}

/// A refused request.
#[derive(PartialEq, Eq, Structural, Clone, Copy, Debug)]
pub enum IncursionError {
    NotOwner,
    TooSoon,
    RoomExists,
    MegaBurritoDefeated,
    NotStarted,
    AlreadyFinished,
    NoRoom,
    NoActiveBattle,
    MustDefend,
    MustAttack,
    NoStrongAttacks,
    NoShields,
}

/// The text that the contract panics with for `e`.
pub open spec fn error_message(e: IncursionError) -> Seq<char> {
    match e {
        IncursionError::NotOwner => "Method is private to owner"@,
        IncursionError::TooSoon => "Aún no pasan 30 horas desde la última incursión"@,
        IncursionError::RoomExists => "Ya tienes una incursion iniciada, debes terminarla"@,
        IncursionError::MegaBurritoDefeated => "El megaburrito ya fue vencido"@,
        IncursionError::NotStarted => "Aún no inicia la incursión"@,
        IncursionError::AlreadyFinished => "Ya terminó la incursión"@,
        IncursionError::NoRoom => "No existe sala creada de esta cuenta"@,
        IncursionError::NoActiveBattle => "No tienes una batalla activa"@,
        IncursionError::MustDefend => "No puedes realizar un ataque, debes elegir si defenderte o no"@,
        IncursionError::MustAttack => "No puedes defenderte, debes realizar un ataque"@,
        IncursionError::NoStrongAttacks => "No tienes mas ataques fuertes, debes realizar uno normal"@,
        IncursionError::NoShields => "No tienes mas escudos, no puedes defenderte"@,
    }
}

impl IncursionError {
    /// The text that the contract panics with.
    pub fn message(&self) -> (s: &'static str)
        ensures
            s@ == error_message(*self),
    {
        match self {
            IncursionError::NotOwner => "Method is private to owner",
            IncursionError::TooSoon => "Aún no pasan 30 horas desde la última incursión",
            IncursionError::RoomExists => "Ya tienes una incursion iniciada, debes terminarla",
            IncursionError::MegaBurritoDefeated => "El megaburrito ya fue vencido",
            IncursionError::NotStarted => "Aún no inicia la incursión",
            IncursionError::AlreadyFinished => "Ya terminó la incursión",
            IncursionError::NoRoom => "No existe sala creada de esta cuenta",
            IncursionError::NoActiveBattle => "No tienes una batalla activa",
            IncursionError::MustDefend => "No puedes realizar un ataque, debes elegir si defenderte o no",
            IncursionError::MustAttack => "No puedes defenderte, debes realizar un ataque",
            IncursionError::NoStrongAttacks => "No tienes mas ataques fuertes, debes realizar uno normal",
            IncursionError::NoShields => "No tienes mas escudos, no puedes defenderte",
        }
    }
}

// ------------------------------------------------------------------------
// Mathematical model
// ------------------------------------------------------------------------

/// A mega burrito, texts as character sequences.
pub struct MegaBurritoView {
    pub name: Seq<char>,
    pub burrito_type: Seq<char>,
    pub start_health: Seq<char>,
    pub health: Seq<char>,
    pub attack: Seq<char>,
    pub defense: Seq<char>,
    pub speed: Seq<char>,
    pub level: Seq<char>,
}

/// A registered burrito, texts as character sequences.
pub struct BurritoPlayerView {
    pub burrito_id: Seq<char>,
    pub burrito_owner: Seq<char>,
}

/// A registration, texts as character sequences.
pub struct PlayerView {
    pub incursion_id: u64,
    pub burrito_id: Seq<char>,
    pub burrito_owner: Seq<char>,
    pub burrito_contract: Seq<char>,
}

/// An incursion, texts as character sequences.
pub struct IncursionView {
    pub id: u64,
    pub status: IncursionStatus,
    pub create_time: u64,
    pub start_time: u64,
    pub finish_time: u64,
    pub players_number: u8,
    pub registered_players: u8,
    pub win: Seq<char>,
    pub mega_burrito: MegaBurritoView,
    pub players: Seq<BurritoPlayerView>,
    pub rewards: u64,
}

/// A battle room, texts as character sequences.
pub struct RoomView {
    pub turn: Seq<char>,
    pub burrito_player_id: Seq<char>,
    pub name: Seq<char>,
    pub burrito_type: Seq<char>,
    pub start_health: Seq<char>,
    pub health: Seq<char>,
    pub hp: Seq<char>,
    pub attack: Seq<char>,
    pub defense: Seq<char>,
    pub speed: Seq<char>,
    pub level: Seq<char>,
    pub media: Seq<char>,
    pub strong_attack_player: Seq<char>,
    pub shields_player: Seq<char>,
    pub incursion_id: u64,
    pub strong_attack_cpu: Seq<char>,
    pub shields_cpu: Seq<char>,
    pub damage_player: u32,
}

/// The incursion contract's state, texts as character sequences.
pub struct IncursionState {
    pub owner_account_id: Seq<char>,
    pub treasury_id: Seq<char>,
    pub incursions: Map<u64, IncursionView>,
    pub rooms: Map<Seq<char>, RoomView>,
    pub players: Map<Seq<char>, PlayerView>,
    pub last_id: u64,
    pub burrito_contract: Seq<char>,
    pub incursion_contract: Seq<char>,
    pub strw_contract: Seq<char>,
}

impl View for MegaBurrito {
    type V = MegaBurritoView;

    open spec fn view(&self) -> MegaBurritoView {
        MegaBurritoView {
            name: self.name@,
            burrito_type: self.burrito_type@,
            start_health: self.start_health@,
            health: self.health@,
            attack: self.attack@,
            defense: self.defense@,
            speed: self.speed@,
            level: self.level@,
        }
    }
}

impl View for BurritoPlayer {
    type V = BurritoPlayerView;

    open spec fn view(&self) -> BurritoPlayerView {
        BurritoPlayerView { burrito_id: self.burrito_id@, burrito_owner: self.burrito_owner@ }
    }
}

impl View for Player {
    type V = PlayerView;

    open spec fn view(&self) -> PlayerView {
        PlayerView {
            incursion_id: self.incursion_id,
            burrito_id: self.burrito_id@,
            burrito_owner: self.burrito_owner@,
            burrito_contract: self.burrito_contract@,
        }
    }
}

/// The views of a sequence of registered burritos.
pub open spec fn players_view(s: Seq<BurritoPlayer>) -> Seq<BurritoPlayerView> {
    s.map_values(|p: BurritoPlayer| p@)
}

impl View for Incursion {
    type V = IncursionView;

    open spec fn view(&self) -> IncursionView {
        IncursionView {
            id: self.id,
            status: self.status,
            create_time: self.create_time,
            start_time: self.start_time,
            finish_time: self.finish_time,
            players_number: self.players_number,
            registered_players: self.registered_players,
            win: self.win@,
            mega_burrito: self.mega_burrito@,
            players: players_view(self.players@),
            rewards: self.rewards,
        }
    }
}

impl View for BPvsMB {
    type V = RoomView;

    open spec fn view(&self) -> RoomView {
        RoomView {
            turn: self.turn@,
            burrito_player_id: self.burrito_player_id@,
            name: self.name@,
            burrito_type: self.burrito_type@,
            start_health: self.start_health@,
            health: self.health@,
            hp: self.hp@,
            attack: self.attack@,
            defense: self.defense@,
            speed: self.speed@,
            level: self.level@,
            media: self.media@,
            strong_attack_player: self.strong_attack_player@,
            shields_player: self.shields_player@,
            incursion_id: self.incursion_id,
            strong_attack_cpu: self.strong_attack_cpu@,
            shields_cpu: self.shields_cpu@,
            damage_player: self.damage_player,
        }
    }
}

/// The incursions by id, by their view.
pub open spec fn incursions_view(m: Map<u64, Incursion>) -> Map<u64, IncursionView> {
    m.map_values(|i: Incursion| i@)
}

/// The battle rooms by player, by their view.
pub open spec fn rooms_view(m: Map<Seq<char>, BPvsMB>) -> Map<Seq<char>, RoomView> {
    m.map_values(|r: BPvsMB| r@)
}

/// The registrations by player, by their view.
pub open spec fn registrations_view(m: Map<Seq<char>, Player>) -> Map<Seq<char>, PlayerView> {
    m.map_values(|p: Player| p@)
}

impl View for Contract {
    type V = IncursionState;

    open spec fn view(&self) -> IncursionState {
        IncursionState {
            owner_account_id: self.owner_account_id@,
            treasury_id: self.treasury_id@,
            incursions: incursions_view(self.incursions@),
            rooms: rooms_view(self.mb_vs_bp@),
            players: registrations_view(self.player_incursion@),
            last_id: self.last_id,
            burrito_contract: self.burrito_contract@,
            incursion_contract: self.incursion_contract@,
            strw_contract: self.strw_contract@,
        }
    }
}

/// A mega burrito whose every text is empty.
pub open spec fn blank_mega_burrito() -> MegaBurritoView {
    MegaBurritoView {
        name: Seq::empty(),
        burrito_type: Seq::empty(),
        start_health: Seq::empty(),
        health: Seq::empty(),
        attack: Seq::empty(),
        defense: Seq::empty(),
        speed: Seq::empty(),
        level: Seq::empty(),
    }
}

/// The placeholder incursion that answers where there is none: id 0, status
/// `Null`, created at `now`, starting `start_offset` and finishing
/// `finish_offset` later.
pub open spec fn null_incursion(now: u64, start_offset: u64, finish_offset: u64) -> IncursionView {
    IncursionView {
        id: 0,
        status: IncursionStatus::Null,
        create_time: now,
        start_time: (now + start_offset) as u64,
        finish_time: (now + finish_offset) as u64,
        players_number: 0,
        registered_players: 0,
        win: Seq::empty(),
        mega_burrito: blank_mega_burrito(),
        players: Seq::empty(),
        rewards: 0,
    }
}

/// The name of a new mega burrito, chosen by a random byte.
pub open spec fn mega_burrito_name(r: u8) -> Seq<char> {
    if 86 <= r <= 170 {
        "Hades"@
    } else if 171 <= r <= 254 {
        "Mictlantecuhtli"@
    } else {
        "Cerberus"@
    }
}

/// The reward pool of a new incursion, chosen by a random byte: 70,000 to
/// 200,000 in steps of 10,000 for each further 18 values of the byte; the
/// bytes 0 and 255 fall outside every step of the table and give nothing.
pub open spec fn incursion_reward(r: u8) -> u64 {
    if r == 0 || r == 255 {
        0
    } else if r / 18 >= 13 {
        200000
    } else {
        (70000 + 10000 * (r / 18)) as u64
    }
}

/// The mega burrito of a new incursion: the first one starts with 100
/// health, later ones with 200.
pub open spec fn new_mega_burrito(first: bool, r: u8) -> MegaBurritoView {
    MegaBurritoView {
        name: mega_burrito_name(r),
        burrito_type: "Fuego"@,
        start_health: if first {
            "100"@
        } else {
            "200"@
        },
        health: if first {
            "100"@
        } else {
            "200"@
        },
        attack: "15"@,
        defense: "15"@,
        speed: "15"@,
        level: "40"@,
    }
}

/// The incursion that `create_incursion` adds at time `now` with random
/// bytes `seed`: the next id, waiting for ten players, starting in an hour
/// and ending an hour later.
pub open spec fn new_incursion(s: IncursionState, now: u64, seed: Seq<u8>) -> IncursionView {
    IncursionView {
        id: (s.last_id + 1) as u64,
        status: IncursionStatus::WaitingPlayers,
        create_time: now,
        start_time: (now + HOUR_NANOS) as u64,
        finish_time: (now + TWO_HOURS_NANOS) as u64,
        players_number: 10,
        registered_players: 0,
        win: Seq::empty(),
        mega_burrito: new_mega_burrito(s.last_id == 0, seed[0]),
        players: Seq::empty(),
        rewards: incursion_reward(seed[2]),
    }
}

/// The state once `create_incursion` added its incursion at `now` with the
/// random bytes `seed`: the new incursion is stored under its id, which
/// becomes the latest.
pub open spec fn after_create(s: IncursionState, now: u64, seed: Seq<u8>) -> IncursionState {
    let made = new_incursion(s, now, seed);
    IncursionState { incursions: s.incursions.insert(made.id, made), last_id: made.id, ..s }
}

/// Every stored incursion carries its key as id, and the keys run from 1 to
/// the latest id.
pub open spec fn ids_consistent(s: IncursionState) -> bool {
    forall|k: u64|
        #[trigger] s.incursions.contains_key(k) ==> s.incursions[k].id == k && 1 <= k <= s.last_id
}

/// The incursion state is sound: ids are consistent, and the latest id,
/// once there is one, is stored.  `new` makes such a state and every
/// operation keeps it.
pub open spec fn state_ok(s: IncursionState) -> bool {
    &&& ids_consistent(s)
    &&& s.last_id != 0 ==> s.incursions.contains_key(s.last_id)
}

/// `caller` passes the owner check of the owner-only methods.
pub open spec fn owner_check(s: IncursionState, caller: Seq<char>) -> bool {
    caller == s.owner_account_id
}

/// The state once `change_owner` handed the contract to `x`.
pub open spec fn with_owner(s: IncursionState, x: Seq<char>) -> IncursionState {
    IncursionState { owner_account_id: x, ..s }
}

/// Too little time has passed since the latest incursion ended.
pub open spec fn too_soon(s: IncursionState, now: u64) -> bool {
    s.last_id != 0 && now <= s.incursions[s.last_id].finish_time + COOLDOWN_NANOS
}

/// The inputs on which `create_incursion` computes without panicking.
pub open spec fn create_incursion_ok(s: IncursionState, now: u64, seed: Seq<u8>) -> bool {
    &&& s.last_id != 0 ==> s.incursions.contains_key(s.last_id) && s.incursions[s.last_id].finish_time
        + COOLDOWN_NANOS <= u64::MAX
    &&& !too_soon(s, now) ==> seed.len() >= 3 && now + TWO_HOURS_NANOS <= u64::MAX && s.last_id
        < u64::MAX
}

/// The incursions by id and an order on their status: waiting, in progress,
/// finished.
pub open spec fn status_rank(st: IncursionStatus) -> int {
    match st {
        IncursionStatus::WaitingPlayers => 0,
        IncursionStatus::InProgress => 1,
        IncursionStatus::Finished => 2,
        IncursionStatus::Null => 3,
    }
}

/// `i` with status `st`.
pub open spec fn with_status(i: IncursionView, st: IncursionStatus) -> IncursionView {
    IncursionView { status: st, ..i }
}

/// Some incursion has status `st`.
pub open spec fn has_status(s: IncursionState, st: IncursionStatus) -> bool {
    exists|k: u64| #[trigger] s.incursions.contains_key(k) && s.incursions[k].status == st
}

// ------------------------------------------------------------------------
// Copies and constructors of plain values
// ------------------------------------------------------------------------

impl MegaBurrito {
    /// A copy of the mega burrito.
    pub fn duplicate(&self) -> (m: MegaBurrito)
        ensures
            m@ == self@,
    {
        MegaBurrito {
            name: self.name.clone(),
            burrito_type: self.burrito_type.clone(),
            start_health: self.start_health.clone(),
            health: self.health.clone(),
            attack: self.attack.clone(),
            defense: self.defense.clone(),
            speed: self.speed.clone(),
            level: self.level.clone(),
        }
    }

    /// A mega burrito whose every text is empty.
    pub fn blank() -> (m: MegaBurrito)
        ensures
            m@ == blank_mega_burrito(),
    {
        MegaBurrito {
            name: String::new(),
            burrito_type: String::new(),
            start_health: String::new(),
            health: String::new(),
            attack: String::new(),
            defense: String::new(),
            speed: String::new(),
            level: String::new(),
        }
    }
}

impl BurritoPlayer {
    /// A copy of the registered burrito.
    pub fn duplicate(&self) -> (p: BurritoPlayer)
        ensures
            p@ == self@,
    {
        BurritoPlayer { burrito_id: self.burrito_id.clone(), burrito_owner: self.burrito_owner.clone() }
    }
}

impl Player {
    /// A copy of the registration.
    pub fn duplicate(&self) -> (p: Player)
        ensures
            p@ == self@,
    {
        Player {
            incursion_id: self.incursion_id,
            burrito_id: self.burrito_id.clone(),
            burrito_owner: self.burrito_owner.clone(),
            burrito_contract: self.burrito_contract.clone(),
        }
    }

    /// The registration that answers where there is none.
    pub fn null() -> (p: Player)
        ensures
            p@ == (PlayerView {
                incursion_id: 0,
                burrito_id: Seq::empty(),
                burrito_owner: Seq::empty(),
                burrito_contract: Seq::empty(),
            }),
    {
        Player {
            incursion_id: 0,
            burrito_id: String::new(),
            burrito_owner: String::new(),
            burrito_contract: String::new(),
        }
    }
}

/// A copy of the registered burritos.
pub fn copy_players(v: &Vec<BurritoPlayer>) -> (r: Vec<BurritoPlayer>)
    ensures
        players_view(r@) == players_view(v@),
{
    let mut r: Vec<BurritoPlayer> = Vec::new();
    let mut i: usize = 0;
    while i < v.len()
        invariant
            i <= v@.len(),
            r@.len() == i,
            forall|j: int| 0 <= j < i ==> #[trigger] r@[j]@ == v@[j]@,
        decreases v@.len() - i,
    {
        r.push(v[i].duplicate());
        i = i + 1;
    }
    assert(players_view(r@) =~= players_view(v@));
    r
}

impl Incursion {
    /// A copy of the incursion.
    pub fn duplicate(&self) -> (i: Incursion)
        ensures
            i@ == self@,
    {
        Incursion {
            id: self.id,
            status: self.status,
            create_time: self.create_time,
            start_time: self.start_time,
            finish_time: self.finish_time,
            players_number: self.players_number,
            registered_players: self.registered_players,
            win: self.win.clone(),
            mega_burrito: self.mega_burrito.duplicate(),
            players: copy_players(&self.players),
            rewards: self.rewards,
        }
    }

    /// The placeholder incursion: see `null_incursion`.
    pub fn null(now: u64, start_offset: u64, finish_offset: u64) -> (i: Incursion)
        requires
            now + start_offset <= u64::MAX,
            now + finish_offset <= u64::MAX,
        ensures
            i@ == null_incursion(now, start_offset, finish_offset),
    {
        let i = Incursion {
            id: 0,
            status: IncursionStatus::Null,
            create_time: now,
            start_time: now + start_offset,
            finish_time: now + finish_offset,
            players_number: 0,
            registered_players: 0,
            win: String::new(),
            mega_burrito: MegaBurrito::blank(),
            players: Vec::new(),
            rewards: 0,
        };
        assert(players_view(i.players@) =~= Seq::<BurritoPlayerView>::empty());
        i
    }
}

impl BPvsMB {
    /// A copy of the battle room.
    pub fn duplicate(&self) -> (r: BPvsMB)
        ensures
            r@ == self@,
    {
        BPvsMB {
            turn: self.turn.clone(),
            burrito_player_id: self.burrito_player_id.clone(),
            name: self.name.clone(),
            burrito_type: self.burrito_type.clone(),
            start_health: self.start_health.clone(),
            health: self.health.clone(),
            hp: self.hp.clone(),
            attack: self.attack.clone(),
            defense: self.defense.clone(),
            speed: self.speed.clone(),
            level: self.level.clone(),
            media: self.media.clone(),
            strong_attack_player: self.strong_attack_player.clone(),
            shields_player: self.shields_player.clone(),
            incursion_id: self.incursion_id,
            strong_attack_cpu: self.strong_attack_cpu.clone(),
            shields_cpu: self.shields_cpu.clone(),
            damage_player: self.damage_player,
        }
    }
}

/// The name of a new mega burrito, chosen by a random byte.
fn choose_mega_burrito_name(r: u8) -> (s: String)
    ensures
        s@ == mega_burrito_name(r),
{
    if 86 <= r && r <= 170 {
        "Hades".to_string()
    } else if 171 <= r && r <= 254 {
        "Mictlantecuhtli".to_string()
    } else {
        "Cerberus".to_string()
    }
}

/// The reward pool of a new incursion, chosen by a random byte.
fn choose_incursion_reward(r: u8) -> (v: u64)
    ensures
        v == incursion_reward(r),
{
    if r == 0 || r == 255 {
        0
    } else if r / 18 >= 13 {
        200000
    } else {
        70000 + 10000 * (r / 18) as u64
    }
}

// ------------------------------------------------------------------------
// The contract: administration and the life of an incursion
// ------------------------------------------------------------------------

impl Contract {
    /// A new incursion contract with no incursion.
    pub fn new(
        owner_account_id: String,
        treasury_id: String,
        burrito_contract: String,
        incursion_contract: String,
        strw_contract: String,
    ) -> (c: Contract)
        ensures
            state_ok(c@),
            c@ == (IncursionState {
                owner_account_id: owner_account_id@,
                treasury_id: treasury_id@,
                incursions: Map::empty(),
                rooms: Map::empty(),
                players: Map::empty(),
                last_id: 0,
                burrito_contract: burrito_contract@,
                incursion_contract: incursion_contract@,
                strw_contract: strw_contract@,
            }),
    {
        let c = Contract {
            owner_account_id,
            treasury_id,
            incursions: HashMap::new(),
            mb_vs_bp: AccountMap::new(),
            player_incursion: AccountMap::new(),
            last_id: 0,
            burrito_contract,
            incursion_contract,
            strw_contract,
        };
        assert(incursions_view(c.incursions@) =~= Map::empty());
        assert(rooms_view(c.mb_vs_bp@) =~= Map::empty());
        assert(registrations_view(c.player_incursion@) =~= Map::empty());
        c
    }

    /// Whether `minter` is the owner.
    fn is_owner(&self, minter: &str) -> (r: bool)
        ensures
            r == (minter@ == self.owner_account_id@),
    {
        self.owner_account_id == minter.to_string()
    }

    /// Whether the caller is the owner.
    fn signer_is_owner(&self, caller: &str) -> (r: bool)
        ensures
            r == (caller@ == self.owner_account_id@),
    {
        self.is_owner(caller)
    }

    /// Refuses every caller but the owner.
    fn assert_owner(&self, caller: &str) -> (r: Result<(), IncursionError>)
        ensures
            r is Ok <==> caller@ == self.owner_account_id@,
            r matches Err(e) ==> e == IncursionError::NotOwner,
    {
        if self.signer_is_owner(caller) {
            Ok(())
        } else {
            Err(IncursionError::NotOwner)
        }
    }

    /// Sets the three contracts that the incursion works with (owner only).
    pub fn change_contracts(
        &mut self,
        caller: &str,
        burrito_contract: String,
        incursion_contract: String,
        strw_contract: String,
    ) -> (r: Result<(), IncursionError>)
        ensures
            state_ok(old(self)@) ==> state_ok(final(self)@),
            r is Ok <==> owner_check(old(self)@, caller@),
            r matches Err(e) ==> e == IncursionError::NotOwner && final(self)@ == old(self)@,
            r is Ok ==> final(self)@ == (IncursionState {
                burrito_contract: burrito_contract@,
                incursion_contract: incursion_contract@,
                strw_contract: strw_contract@,
                ..old(self)@
            }),
    {
        self.assert_owner(caller)?;
        self.burrito_contract = burrito_contract;
        self.incursion_contract = incursion_contract;
        self.strw_contract = strw_contract;
        Ok(())
    }

    /// Hands the contract to a new owner (owner only).
    pub fn change_owner(&mut self, caller: &str, owner_account_id: String) -> (r: Result<
        (),
        IncursionError,
    >)
        ensures
            state_ok(old(self)@) ==> state_ok(final(self)@),
            r is Ok <==> owner_check(old(self)@, caller@),
            r matches Err(e) ==> e == IncursionError::NotOwner && final(self)@ == old(self)@,
            r is Ok ==> final(self)@ == with_owner(old(self)@, owner_account_id@),
    {
        self.assert_owner(caller)?;
        self.owner_account_id = owner_account_id;
        Ok(())
    }

    /// Sets the account that receives the payments (owner only).
    pub fn change_treasury(&mut self, caller: &str, treasury_id: String) -> (r: Result<
        (),
        IncursionError,
    >)
        ensures
            state_ok(old(self)@) ==> state_ok(final(self)@),
            r is Ok <==> owner_check(old(self)@, caller@),
            r matches Err(e) ==> e == IncursionError::NotOwner && final(self)@ == old(self)@,
            r is Ok ==> final(self)@ == (IncursionState { treasury_id: treasury_id@, ..old(self)@ }),
    {
        self.assert_owner(caller)?;
        self.treasury_id = treasury_id;
        Ok(())
    }

    /// The lines that `show_contracts` logs.
    pub fn show_contracts(&self) -> (lines: Vec<String>)
        ensures
            lines@.len() == 3,
            lines@[0]@ == "burrito_contract: "@ + self.burrito_contract@,
            lines@[1]@ == "incursion_contract: "@ + self.incursion_contract@,
            lines@[2]@ == "strw_contract: "@ + self.strw_contract@,
    {
        let mut lines = Vec::new();
        lines.push(labelled("burrito_contract: ", self.burrito_contract.as_str()));
        lines.push(labelled("incursion_contract: ", self.incursion_contract.as_str()));
        lines.push(labelled("strw_contract: ", self.strw_contract.as_str()));
        lines
    }

    /// The id of the latest incursion; 0 before the first.
    pub fn show_last_id(&self) -> (id: u64)
        ensures
            id == self.last_id,
    {
        self.last_id
    }

    /// Creates the next incursion at time `now`, with the random bytes `seed`
    /// choosing its mega burrito's name (`seed[0]`) and its reward pool
    /// (`seed[2]`).  Refused until thirty hours after the latest incursion
    /// ended.
    pub fn create_incursion(&mut self, now: u64, seed: &Vec<u8>) -> (r: Result<
        Incursion,
        IncursionError,
    >)
        requires
            create_incursion_ok(old(self)@, now, seed@),
        ensures
            state_ok(old(self)@) ==> state_ok(final(self)@),
            r is Err <==> too_soon(old(self)@, now),
            r matches Err(e) ==> e == IncursionError::TooSoon && final(self)@ == old(self)@,
            r matches Ok(inc) ==> inc@ == new_incursion(old(self)@, now, seed@) && final(self)@
                == after_create(old(self)@, now, seed@),
    {
        let first = self.last_id == 0;
        if !first {
            let last = self.incursions.get(&self.last_id).unwrap();
            proof {
                assert(incursions_view(self.incursions@)[self.last_id] == last@);
            }
            if now <= last.finish_time + COOLDOWN_NANOS {
                return Err(IncursionError::TooSoon);
            }
        }
        let health = if first {
            "100"
        } else {
            "200"
        };
        let mega_burrito = MegaBurrito {
            name: choose_mega_burrito_name(seed[0]),
            burrito_type: "Fuego".to_string(),
            start_health: health.to_string(),
            health: health.to_string(),
            attack: "15".to_string(),
            defense: "15".to_string(),
            speed: "15".to_string(),
            level: "40".to_string(),
        };
        let id = self.last_id + 1;
        let new_incursion = Incursion {
            id,
            status: IncursionStatus::WaitingPlayers,
            create_time: now,
            start_time: now + HOUR_NANOS,
            finish_time: now + TWO_HOURS_NANOS,
            players_number: 10,
            registered_players: 0,
            win: String::new(),
            mega_burrito,
            players: Vec::new(),
            rewards: choose_incursion_reward(seed[2]),
        };
        assert(players_view(new_incursion.players@) =~= Seq::<BurritoPlayerView>::empty());
        let ghost old_map = self.incursions@;
        let ghost made = new_incursion@;
        let stored = new_incursion.duplicate();
        self.incursions.insert(id, stored);
        self.last_id = id;
        assert(incursions_view(self.incursions@) =~= incursions_view(old_map).insert(id, made));
        Ok(new_incursion)
    }

    /// The latest incursion; the placeholder, created at `now`, where there
    /// is none.
    pub fn get_active_incursion(&self, now: u64) -> (r: Incursion)
        requires
            !self@.incursions.contains_key(self@.last_id) ==> now + TWO_HOURS_NANOS
                <= u64::MAX,
        ensures
            r@ == if self@.incursions.contains_key(self@.last_id) {
                self@.incursions[self@.last_id]
            } else {
                null_incursion(now, HOUR_NANOS, TWO_HOURS_NANOS)
            },
    {
        match self.incursions.get(&self.last_id) {
            None => Incursion::null(now, HOUR_NANOS, TWO_HOURS_NANOS),
            Some(info) => {
                proof {
                    assert(incursions_view(self.incursions@)[self.last_id] == info@);
                }
                info.duplicate()
            },
        }
    }

    /// Drops every incursion, battle room and registration, and starts the
    /// ids again (owner only).
    pub fn delete_all_incursions(&mut self, caller: &str) -> (r: Result<(), IncursionError>)
        ensures
            state_ok(old(self)@) ==> state_ok(final(self)@),
            r is Ok <==> owner_check(old(self)@, caller@),
            r matches Err(e) ==> e == IncursionError::NotOwner && final(self)@ == old(self)@,
            r is Ok ==> final(self)@ == (IncursionState {
                incursions: Map::empty(),
                rooms: Map::empty(),
                players: Map::empty(),
                last_id: 0,
                ..old(self)@
            }),
    {
        self.assert_owner(caller)?;
        self.incursions.clear();
        self.mb_vs_bp.clear();
        self.player_incursion.clear();
        self.last_id = 0;
        assert(incursions_view(self.incursions@) =~= Map::empty());
        assert(rooms_view(self.mb_vs_bp@) =~= Map::empty());
        assert(registrations_view(self.player_incursion@) =~= Map::empty());
        Ok(())
    }

    /// The key of some incursion with status `from`, if there is one.
    fn find_with_status(&self, from: IncursionStatus) -> (r: Option<u64>)
        ensures
            match r {
                Some(k) => self@.incursions.contains_key(k) && self@.incursions[k].status == from,
                None => !has_status(self@, from),
            },
    {
        let mut found: Option<u64> = None;
        let ghost m = self.incursions@;
        let ghost items = vstd::std_specs::hash::spec_hash_map_iter(&self.incursions).remaining();
        for entry in it: self.incursions.iter()
            invariant
                m == self.incursions@,
                it.seq() == items,
                match found {
                    Some(k) => m.contains_key(k) && m[k].status == from,
                    None => forall|j: int|
                        0 <= j < it.index() ==> (#[trigger] items[j]).1.status != from,
                },
        {
            let (k, v) = entry;
            if v.status == from {
                found = Some(*k);
            }
        }
        proof {
            if found is None {
                if has_status(self@, from) {
                    let k = choose|k: u64|
                        #[trigger] self@.incursions.contains_key(k) && self@.incursions[k].status
                            == from;
                    assert(m.contains_key(k));
                    assert(items.contains((&k, &m[k])));
                    let j = choose|j: int| 0 <= j < items.len() && items[j] == (&k, &m[k]);
                    assert(items[j].1.status != from);
                }
            }
        }
        found
    }

    /// Moves some incursion with status `from` to status `to` and answers it;
    /// the placeholder, created at `now`, where there is none.
    fn advance_status(&mut self, now: u64, from: IncursionStatus, to: IncursionStatus) -> (r:
        Incursion)
        requires
            !has_status(old(self)@, from) ==> now + DAY_NANOS <= u64::MAX,
        ensures
            !has_status(old(self)@, from) ==> r@ == null_incursion(
                now,
                HALF_DAY_NANOS,
                DAY_NANOS,
            ) && final(self)@ == old(self)@,
            has_status(old(self)@, from) ==> exists|k: u64|
                {
                    &&& #[trigger] old(self)@.incursions.contains_key(k)
                    &&& old(self)@.incursions[k].status == from
                    &&& r@ == with_status(old(self)@.incursions[k], to)
                    &&& final(self)@ == (IncursionState {
                        incursions: old(self)@.incursions.insert(k, r@),
                        ..old(self)@
                    })
                },
    {
        match self.find_with_status(from) {
            None => Incursion::null(now, HALF_DAY_NANOS, DAY_NANOS),
            Some(key) => {
                let info = self.incursions.get(&key).unwrap();
                proof {
                    assert(incursions_view(self.incursions@)[key] == info@);
                }
                let mut updated = info.duplicate();
                updated.status = to;
                let ghost old_map = self.incursions@;
                let ghost upd = updated@;
                let stored = updated.duplicate();
                self.incursions.insert(key, stored);
                assert(incursions_view(self.incursions@) =~= incursions_view(old_map).insert(
                    key,
                    upd,
                ));
                updated
            },
        }
    }

    /// Starts some incursion that waits for players (owner only); the
    /// placeholder where none waits.
    pub fn start_active_incursion(&mut self, caller: &str, now: u64) -> (r: Result<
        Incursion,
        IncursionError,
    >)
        requires
            owner_check(old(self)@, caller@) && !has_status(
                old(self)@,
                IncursionStatus::WaitingPlayers,
            ) ==> now + DAY_NANOS <= u64::MAX,
        ensures
            state_ok(old(self)@) ==> state_ok(final(self)@),
            r is Ok <==> owner_check(old(self)@, caller@),
            r matches Err(e) ==> e == IncursionError::NotOwner && final(self)@ == old(self)@,
            r matches Ok(inc) ==> {
                &&& !has_status(old(self)@, IncursionStatus::WaitingPlayers) ==> inc@
                    == null_incursion(now, HALF_DAY_NANOS, DAY_NANOS) && final(self)@ == old(self)@
                &&& has_status(old(self)@, IncursionStatus::WaitingPlayers) ==> exists|k: u64|
                    {
                        &&& #[trigger] old(self)@.incursions.contains_key(k)
                        &&& old(self)@.incursions[k].status == IncursionStatus::WaitingPlayers
                        &&& inc@ == with_status(
                            old(self)@.incursions[k],
                            IncursionStatus::InProgress,
                        )
                        &&& final(self)@ == (IncursionState {
                            incursions: old(self)@.incursions.insert(k, inc@),
                            ..old(self)@
                        })
                    }
            },
    {
        self.assert_owner(caller)?;
        Ok(self.advance_status(now, IncursionStatus::WaitingPlayers, IncursionStatus::InProgress))
    }

    /// Finishes some incursion in progress (owner only); the placeholder
    /// where none is in progress.
    pub fn finish_active_incursion(&mut self, caller: &str, now: u64) -> (r: Result<
        Incursion,
        IncursionError,
    >)
        requires
            owner_check(old(self)@, caller@) && !has_status(
                old(self)@,
                IncursionStatus::InProgress,
            ) ==> now + DAY_NANOS <= u64::MAX,
        ensures
            state_ok(old(self)@) ==> state_ok(final(self)@),
            r is Ok <==> owner_check(old(self)@, caller@),
            r matches Err(e) ==> e == IncursionError::NotOwner && final(self)@ == old(self)@,
            r matches Ok(inc) ==> {
                &&& !has_status(old(self)@, IncursionStatus::InProgress) ==> inc@
                    == null_incursion(now, HALF_DAY_NANOS, DAY_NANOS) && final(self)@ == old(self)@
                &&& has_status(old(self)@, IncursionStatus::InProgress) ==> exists|k: u64|
                    {
                        &&& #[trigger] old(self)@.incursions.contains_key(k)
                        &&& old(self)@.incursions[k].status == IncursionStatus::InProgress
                        &&& inc@ == with_status(
                            old(self)@.incursions[k],
                            IncursionStatus::Finished,
                        )
                        &&& final(self)@ == (IncursionState {
                            incursions: old(self)@.incursions.insert(k, inc@),
                            ..old(self)@
                        })
                    }
            },
    {
        self.assert_owner(caller)?;
        Ok(self.advance_status(now, IncursionStatus::InProgress, IncursionStatus::Finished))
    }
}

} // verus!
