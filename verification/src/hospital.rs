//! The hospital: a player puts a burrito without lives into one of three
//! recovery capsules, pays for it, and takes it back with its lives restored
//! once the restoration time has passed.
//!
//! Each method takes what the contract reads from the blockchain context (the
//! caller, the block time, the attached deposit) as arguments, and hands back
//! the cross-contract calls it asks for as values of `HospitalCall`.

use vstd::prelude::*;
use crate::text::labelled;
use crate::account::{is_valid_account_id, valid_account_id};
use crate::account_map::AccountMap;
use crate::decimal::{decimal, parse_u8, parse_u8_spec, u128_to_string, u64_to_string};

verus! {

/// Block-time nanoseconds that one restoration epoch lasts.
pub const EPOCH_NANOS: u64 = 300000000000;

/// The message that a player sends with the burrito: the capsule to use.
#[derive(Debug)]
pub struct MsgInput {
    pub capsule_number: u64,
}

/// A burrito, as the burrito contract describes it.
#[derive(Debug)]
pub struct Burrito {
    pub owner_id: String,
    pub name: String,
    pub description: String,
    pub burrito_type: String,
    pub hp: String,
    pub attack: String,
    pub defense: String,
    pub speed: String,
    pub win: String,
    pub global_win: String,
    pub level: String,
    pub media: String,
}

/// One recovery capsule; an empty burrito id marks it free.
#[derive(Debug)]
pub struct Capsule {
    pub burrito_id: String,
    pub burrito_owner: String,
    pub burrito_contract: String,
    pub start_time: u64,
    pub finish_time: u64,
}

/// A player's three recovery capsules and how many of them are in use.
#[derive(Debug)]
pub struct RecoveryCapsules {
    pub count: u64,
    pub capsule1: Capsule,
    pub capsule2: Capsule,
    pub capsule3: Capsule,
}

/// The answer to a withdrawal.
#[derive(Debug)]
pub struct ClaimedBurrito {
    pub complete: bool,
    pub msg: String,
    pub burrito_id: String,
}

/// The state of the hospital contract.
pub struct Contract {
    pub owner_account_id: String,
    pub treasury_id: String,
    pub cost_strw: u128,
    pub epoch_to_restore: u64,
    pub capsules: AccountMap<RecoveryCapsules>,
    pub burrito_contract: String,
    pub hospital_contract: String,
    pub strw_contract: String,
}

/// The state layout of the contract's previous version.
pub struct OldContract {
    pub owner_account_id: String,
    pub treasury_id: String,
    pub cost_strw: u128,
    pub epoch_to_restore: u64,
    pub capsules: AccountMap<RecoveryCapsules>,
    pub burrito_contract: String,
    pub hospital_contract: String,
    pub strw_contract: String,
}

/// The methods of other contracts that the hospital calls.
pub trait ExternsContract {
    fn nft_transfer(&mut self, receiver_id: String, token_id: String);

    fn get_balance_and_transfer_hospital(
        &self,
        account_id: String,
        action: String,
        treasury_id: String,
        cost: u128,
    ) -> bool;

    fn get_burrito_capsule(&self, burrito_id: String) -> Burrito;
}

/// A cross-contract call that a method asks for.
#[derive(Debug)]
pub enum HospitalCall {
    /// `get_burrito_capsule(token_id)` on `burrito_contract`, whose answer goes
    /// to `get_burrito_info(player, capsules)` on `hospital_contract`.
    InspectBurrito {
        burrito_contract: String,
        token_id: String,
        hospital_contract: String,
        player: String,
        capsules: RecoveryCapsules,
    },
    /// `get_balance_and_transfer_hospital(player, action, treasury_id, cost)` on
    /// `strw_contract`.
    ChargeCapsule {
        strw_contract: String,
        player: String,
        action: String,
        treasury_id: String,
        cost: u128,
    },
    /// `increase_all_burrito_hp(burrito_id)` on `burrito_contract`, then
    /// `nft_transfer(receiver_id, burrito_id)` on `nft_contract` with
    /// `deposit` attached.
    RestoreAndReturn {
        burrito_contract: String,
        burrito_id: String,
        nft_contract: String,
        receiver_id: String,
        deposit: u128,
    },
}

/// What `nft_on_transfer` answers: a value, or a call whose answer decides.
#[derive(Debug)]
pub enum TransferReply {
    Value(bool),
    Promise(HospitalCall),
}

/// The outcome of a call to another contract, as a callback receives it.
#[derive(Debug)]
pub enum PromiseOutcome<T> {
    Failed,
    Successful(T),
}

/// A refused request.
#[derive(PartialEq, Eq, Structural, Clone, Copy, Debug)]
pub enum HospitalError {
    /// The caller is not the owner of the contract.
    NotOwner,
}

impl HospitalError {
    /// The text that the contract panics with.
    pub fn message(&self) -> (s: &'static str)
        ensures
            s@ == "can only be called by the owner"@,
    {
        "can only be called by the owner"
    }
}

// ------------------------------------------------------------------------
// Mathematical model
// ------------------------------------------------------------------------

/// A capsule, with names as character sequences.
pub struct CapsuleView {
    pub burrito_id: Seq<char>,
    pub burrito_owner: Seq<char>,
    pub burrito_contract: Seq<char>,
    pub start_time: u64,
    pub finish_time: u64,
}

/// A player's capsules, with names as character sequences.
pub struct RecoveryCapsulesView {
    pub count: u64,
    pub capsule1: CapsuleView,
    pub capsule2: CapsuleView,
    pub capsule3: CapsuleView,
}

/// The answer to a withdrawal, with texts as character sequences.
pub struct ClaimedBurritoView {
    pub complete: bool,
    pub msg: Seq<char>,
    pub burrito_id: Seq<char>,
}

/// The hospital's state, with names as character sequences.
pub struct HospitalView {
    pub owner_account_id: Seq<char>,
    pub treasury_id: Seq<char>,
    pub cost_strw: u128,
    pub epoch_to_restore: u64,
    pub capsules: Map<Seq<char>, RecoveryCapsulesView>,
    pub burrito_contract: Seq<char>,
    pub hospital_contract: Seq<char>,
    pub strw_contract: Seq<char>,
}

/// A requested call, with names as character sequences.
pub enum HospitalCallView {
    InspectBurrito {
        burrito_contract: Seq<char>,
        token_id: Seq<char>,
        hospital_contract: Seq<char>,
        player: Seq<char>,
        capsules: RecoveryCapsulesView,
    },
    ChargeCapsule {
        strw_contract: Seq<char>,
        player: Seq<char>,
        action: Seq<char>,
        treasury_id: Seq<char>,
        cost: u128,
    },
    RestoreAndReturn {
        burrito_contract: Seq<char>,
        burrito_id: Seq<char>,
        nft_contract: Seq<char>,
        receiver_id: Seq<char>,
        deposit: u128,
    },
}

impl View for Capsule {
    type V = CapsuleView;

    open spec fn view(&self) -> CapsuleView {
        CapsuleView {
            burrito_id: self.burrito_id@,
            burrito_owner: self.burrito_owner@,
            burrito_contract: self.burrito_contract@,
            start_time: self.start_time,
            finish_time: self.finish_time,
        }
    }
}

impl View for RecoveryCapsules {
    type V = RecoveryCapsulesView;

    open spec fn view(&self) -> RecoveryCapsulesView {
        RecoveryCapsulesView {
            count: self.count,
            capsule1: self.capsule1@,
            capsule2: self.capsule2@,
            capsule3: self.capsule3@,
        }
    }
}

impl View for ClaimedBurrito {
    type V = ClaimedBurritoView;

    open spec fn view(&self) -> ClaimedBurritoView {
        ClaimedBurritoView { complete: self.complete, msg: self.msg@, burrito_id: self.burrito_id@ }
    }
}

impl View for HospitalCall {
    type V = HospitalCallView;

    open spec fn view(&self) -> HospitalCallView {
        match self {
            HospitalCall::InspectBurrito {
                burrito_contract,
                token_id,
                hospital_contract,
                player,
                capsules,
            } => HospitalCallView::InspectBurrito {
                burrito_contract: burrito_contract@,
                token_id: token_id@,
                hospital_contract: hospital_contract@,
                player: player@,
                capsules: capsules@,
            },
            HospitalCall::ChargeCapsule { strw_contract, player, action, treasury_id, cost } =>
                HospitalCallView::ChargeCapsule {
                strw_contract: strw_contract@,
                player: player@,
                action: action@,
                treasury_id: treasury_id@,
                cost: *cost,
            },
            HospitalCall::RestoreAndReturn {
                burrito_contract,
                burrito_id,
                nft_contract,
                receiver_id,
                deposit,
            } => HospitalCallView::RestoreAndReturn {
                burrito_contract: burrito_contract@,
                burrito_id: burrito_id@,
                nft_contract: nft_contract@,
                receiver_id: receiver_id@,
                deposit: *deposit,
            },
        }
    }
}

/// The capsules of every player, by their view.
pub open spec fn capsules_view(m: Map<Seq<char>, RecoveryCapsules>) -> Map<
    Seq<char>,
    RecoveryCapsulesView,
> {
    m.map_values(|r: RecoveryCapsules| r@)
}

impl View for Contract {
    type V = HospitalView;

    open spec fn view(&self) -> HospitalView {
        HospitalView {
            owner_account_id: self.owner_account_id@,
            treasury_id: self.treasury_id@,
            cost_strw: self.cost_strw,
            epoch_to_restore: self.epoch_to_restore,
            capsules: capsules_view(self.capsules@),
            burrito_contract: self.burrito_contract@,
            hospital_contract: self.hospital_contract@,
            strw_contract: self.strw_contract@,
        }
    }
}

/// A free capsule.
pub open spec fn empty_capsule() -> CapsuleView {
    CapsuleView {
        burrito_id: Seq::empty(),
        burrito_owner: Seq::empty(),
        burrito_contract: Seq::empty(),
        start_time: 0,
        finish_time: 0,
    }
}

/// A player with no capsule in use.
pub open spec fn no_capsules() -> RecoveryCapsulesView {
    RecoveryCapsulesView {
        count: 0,
        capsule1: empty_capsule(),
        capsule2: empty_capsule(),
        capsule3: empty_capsule(),
    }
}

/// Capsule number `n` (1, 2 or 3).
pub open spec fn slot(c: RecoveryCapsulesView, n: u64) -> CapsuleView {
    if n == 1 {
        c.capsule1
    } else if n == 2 {
        c.capsule2
    } else {
        c.capsule3
    }
}

/// `c` with capsule number `n` (1, 2 or 3) replaced by `cap`.
pub open spec fn with_slot(c: RecoveryCapsulesView, n: u64, cap: CapsuleView) -> RecoveryCapsulesView {
    if n == 1 {
        RecoveryCapsulesView { capsule1: cap, ..c }
    } else if n == 2 {
        RecoveryCapsulesView { capsule2: cap, ..c }
    } else {
        RecoveryCapsulesView { capsule3: cap, ..c }
    }
}

/// A capsule number that exists.
pub open spec fn valid_capsule_number(n: u64) -> bool {
    1 <= n <= 3
}

/// The capsule that a burrito of `player`, sent from `contract_id` at time
/// `now`, occupies.
pub open spec fn new_capsule(
    s: HospitalView,
    contract_id: Seq<char>,
    player: Seq<char>,
    token_id: Seq<char>,
    now: u64,
) -> CapsuleView {
    CapsuleView {
        burrito_id: token_id,
        burrito_owner: player,
        burrito_contract: contract_id,
        start_time: now,
        finish_time: (now + EPOCH_NANOS * s.epoch_to_restore) as u64,
    }
}

/// The time at which a capsule filled at `now` finishes, without overflow.
pub open spec fn finish_time_fits(s: HospitalView, now: u64) -> bool {
    now + EPOCH_NANOS * s.epoch_to_restore <= u64::MAX
}

/// A burrito may go into capsule `n` of `player`: the number exists, the
/// player does not use three capsules already, and that capsule is free.
pub open spec fn capsule_admits(s: HospitalView, player: Seq<char>, n: u64) -> bool {
    &&& valid_capsule_number(n)
    &&& s.capsules.contains_key(player) ==> {
        &&& s.capsules[player].count != 3
        &&& slot(s.capsules[player], n).burrito_id.len() == 0
    }
}

/// The capsules that `player` would have with the burrito in capsule `n`.
pub open spec fn capsules_after_entry(
    s: HospitalView,
    contract_id: Seq<char>,
    player: Seq<char>,
    token_id: Seq<char>,
    n: u64,
    now: u64,
) -> RecoveryCapsulesView {
    let cap = new_capsule(s, contract_id, player, token_id, now);
    if s.capsules.contains_key(player) {
        let info = s.capsules[player];
        with_slot(RecoveryCapsulesView { count: (info.count + 1) as u64, ..info }, n, cap)
    } else {
        with_slot(RecoveryCapsulesView { count: 1, ..no_capsules() }, n, cap)
    }
}

/// The inputs on which `nft_on_transfer` computes without overflow: where the
/// capsule number exists and three capsules are not in use, the finish time
/// and the new count fit.
pub open spec fn entry_fits(s: HospitalView, player: Seq<char>, n: u64, now: u64) -> bool {
    valid_capsule_number(n) && (s.capsules.contains_key(player) ==> s.capsules[player].count != 3)
        ==> {
        &&& finish_time_fits(s, now)
        &&& s.capsules.contains_key(player) ==> s.capsules[player].count < u64::MAX
    }
}

/// The burrito and hospital contracts have account names, as the calls
/// about an admitted burrito need: the contract panics on a name that no
/// account can have.
pub open spec fn contracts_named(s: HospitalView) -> bool {
    valid_account_id(s.burrito_contract) && valid_account_id(s.hospital_contract)
}

/// Why a withdrawal of capsule `n` by `player` at time `now` is refused, if
/// it is.
pub open spec fn withdraw_refusal(s: HospitalView, player: Seq<char>, n: u64, now: u64) -> Option<
    Seq<char>,
> {
    if !s.capsules.contains_key(player) {
        Some("No hay ninguna capsula registrada"@)
    } else if !valid_capsule_number(n) {
        Some("No existe la capsula ingresada"@)
    } else if slot(s.capsules[player], n).burrito_id.len() == 0 {
        Some(
            if n == 1 {
                "No hay burrito en la capsula 1"@
            } else if n == 2 {
                "No hay burrito en la capsula 2"@
            } else {
                "No hay burrito en la capsula 3"@
            },
        )
    } else if slot(s.capsules[player], n).burrito_owner != player {
        Some("No eres el dueño del burrito"@)
    } else if now < slot(s.capsules[player], n).finish_time {
        Some("Aún no finaliza el tiempo de restauración"@)
    } else {
        None
    }
}

/// The inputs on which the withdrawal panics: the owner recorded in the
/// capsule is no account name; or the withdrawal is granted but the burrito
/// contract or the capsule's NFT contract is no account name, or the count of
/// capsules in use is already 0.
pub open spec fn withdraw_panics(s: HospitalView, player: Seq<char>, n: u64, now: u64) -> bool {
    let cap = slot(s.capsules[player], n);
    &&& s.capsules.contains_key(player)
    &&& valid_capsule_number(n)
    &&& cap.burrito_id.len() != 0
    &&& {
        ||| !valid_account_id(cap.burrito_owner)
        ||| withdraw_refusal(s, player, n, now) is None && {
            ||| !valid_account_id(s.burrito_contract)
            ||| !valid_account_id(cap.burrito_contract)
            ||| s.capsules[player].count == 0
        }
    }
}

/// The hospital after a granted withdrawal of capsule `n` by `player`: the
/// capsule is free and one capsule fewer is in use.
pub open spec fn after_withdraw(s: HospitalView, player: Seq<char>, n: u64) -> HospitalView {
    let info = s.capsules[player];
    HospitalView {
        capsules: s.capsules.insert(
            player,
            with_slot(RecoveryCapsulesView { count: (info.count - 1) as u64, ..info }, n, empty_capsule()),
        ),
        ..s
    }
}

// ------------------------------------------------------------------------
// Constructors of plain values
// ------------------------------------------------------------------------

impl Capsule {
    /// A free capsule.
    pub fn empty() -> (c: Capsule)
        ensures
            c@ == empty_capsule(),
    {
        Capsule {
            burrito_id: String::new(),
            burrito_owner: String::new(),
            burrito_contract: String::new(),
            start_time: 0,
            finish_time: 0,
        }
    }

    /// A copy of the capsule.
    pub fn duplicate(&self) -> (c: Capsule)
        ensures
            c@ == self@,
    {
        Capsule {
            burrito_id: self.burrito_id.clone(),
            burrito_owner: self.burrito_owner.clone(),
            burrito_contract: self.burrito_contract.clone(),
            start_time: self.start_time,
            finish_time: self.finish_time,
        }
    }
}

impl RecoveryCapsules {
    /// A copy of the capsules.
    pub fn duplicate(&self) -> (c: RecoveryCapsules)
        ensures
            c@ == self@,
    {
        RecoveryCapsules {
            count: self.count,
            capsule1: self.capsule1.duplicate(),
            capsule2: self.capsule2.duplicate(),
            capsule3: self.capsule3.duplicate(),
        }
    }

    /// Capsule number `n` (1, 2 or 3).
    pub fn slot(&self, n: u64) -> (c: &Capsule)
        requires
            valid_capsule_number(n),
        ensures
            c@ == slot(self@, n),
    {
        if n == 1 {
            &self.capsule1
        } else if n == 2 {
            &self.capsule2
        } else {
            &self.capsule3
        }
    }

    /// Puts `cap` into capsule number `n` (1, 2 or 3).
    pub fn set_slot(&mut self, n: u64, cap: Capsule)
        requires
            valid_capsule_number(n),
        ensures
            final(self)@ == with_slot(old(self)@, n, cap@),
    {
        if n == 1 {
            self.capsule1 = cap;
        } else if n == 2 {
            self.capsule2 = cap;
        } else {
            self.capsule3 = cap;
        }
    }
}

impl ClaimedBurrito {
    /// A refused withdrawal with message `msg`.
    fn refused(msg: &str) -> (c: ClaimedBurrito)
        ensures
            c@ == (ClaimedBurritoView { complete: false, msg: msg@, burrito_id: Seq::empty() }),
    {
        ClaimedBurrito { complete: false, msg: msg.to_string(), burrito_id: String::new() }
    }
}

// ------------------------------------------------------------------------
// The contract
// ------------------------------------------------------------------------

impl Contract {
    /// A new hospital with no capsule in use.
    pub fn new(
        owner_account_id: String,
        treasury_id: String,
        cost_strw: u128,
        epoch_to_restore: u64,
        burrito_contract: String,
        hospital_contract: String,
        strw_contract: String,
    ) -> (c: Contract)
        ensures
            c@ == (HospitalView {
                owner_account_id: owner_account_id@,
                treasury_id: treasury_id@,
                cost_strw,
                epoch_to_restore,
                capsules: Map::empty(),
                burrito_contract: burrito_contract@,
                hospital_contract: hospital_contract@,
                strw_contract: strw_contract@,
            }),
    {
        let c = Contract {
            owner_account_id,
            treasury_id,
            cost_strw,
            epoch_to_restore,
            capsules: AccountMap::new(),
            burrito_contract,
            hospital_contract,
            strw_contract,
        };
        assert(capsules_view(c.capsules@) =~= Map::empty());
        c
    }

    /// Refuses every caller but the owner.
    pub fn assert_owner_calling(&self, caller: &str) -> (r: Result<(), HospitalError>)
        ensures
            r is Ok <==> caller@ == self.owner_account_id@,
    {
        if self.owner_account_id == caller.to_string() {
            Ok(())
        } else {
            Err(HospitalError::NotOwner)
        }
    }

    /// Sets the three contracts that the hospital works with (owner only).
    pub fn change_contracts(
        &mut self,
        caller: &str,
        burrito_contract: String,
        hospital_contract: String,
        strw_contract: String,
    ) -> (r: Result<(), HospitalError>)
        ensures
            r is Ok <==> caller@ == old(self)@.owner_account_id,
            r is Ok ==> final(self)@ == (HospitalView {
                burrito_contract: burrito_contract@,
                hospital_contract: hospital_contract@,
                strw_contract: strw_contract@,
                ..old(self)@
            }),
            r is Err ==> final(self)@ == old(self)@,
    {
        self.assert_owner_calling(caller)?;
        self.burrito_contract = burrito_contract;
        self.hospital_contract = hospital_contract;
        self.strw_contract = strw_contract;
        Ok(())
    }

    /// The lines that `show_contracts` logs.
    pub fn show_contracts(&self) -> (lines: Vec<String>)
        ensures
            lines@.len() == 3,
            lines@[0]@ == "burrito_contract: "@ + self.burrito_contract@,
            lines@[1]@ == "hospital_contract: "@ + self.hospital_contract@,
            lines@[2]@ == "strw_contract: "@ + self.strw_contract@,
    {
        let mut lines = Vec::new();
        lines.push(labelled("burrito_contract: ", self.burrito_contract.as_str()));
        lines.push(labelled("hospital_contract: ", self.hospital_contract.as_str()));
        lines.push(labelled("strw_contract: ", self.strw_contract.as_str()));
        lines
    }

    /// Hands the contract to a new owner (owner only).
    pub fn change_owner(&mut self, caller: &str, owner_account_id: String) -> (r: Result<
        (),
        HospitalError,
    >)
        ensures
            r is Ok <==> caller@ == old(self)@.owner_account_id,
            r is Ok ==> final(self)@ == (HospitalView {
                owner_account_id: owner_account_id@,
                ..old(self)@
            }),
            r is Err ==> final(self)@ == old(self)@,
    {
        self.assert_owner_calling(caller)?;
        self.owner_account_id = owner_account_id;
        Ok(())
    }

    /// Sets how many epochs a restoration takes (owner only).
    pub fn change_epoch_restore(&mut self, caller: &str, epoch_to_restore: u64) -> (r: Result<
        String,
        HospitalError,
    >)
        ensures
            r is Ok <==> caller@ == old(self)@.owner_account_id,
            r matches Ok(m) ==> m@ == "Epocas de restauración actualizadas"@ && final(self)@ == (
            HospitalView { epoch_to_restore, ..old(self)@ }),
            r is Err ==> final(self)@ == old(self)@,
    {
        self.assert_owner_calling(caller)?;
        self.epoch_to_restore = epoch_to_restore;
        Ok("Epocas de restauración actualizadas".to_string())
    }

    /// Sets the price of a capsule (owner only).
    pub fn change_strw_cost(&mut self, caller: &str, cost_strw: u128) -> (r: Result<
        String,
        HospitalError,
    >)
        ensures
            r is Ok <==> caller@ == old(self)@.owner_account_id,
            r matches Ok(m) ==> m@ == "Costo de capsula actualizado"@ && final(self)@ == (
            HospitalView { cost_strw, ..old(self)@ }),
            r is Err ==> final(self)@ == old(self)@,
    {
        self.assert_owner_calling(caller)?;
        self.cost_strw = cost_strw;
        Ok("Costo de capsula actualizado".to_string())
    }

    /// The price of a capsule.
    pub fn get_strw_cost(&self) -> (c: u128)
        ensures
            c == self.cost_strw,
    {
        self.cost_strw
    }

    /// Sets the account that receives the payments (owner only).
    pub fn change_treasury(&mut self, caller: &str, new_treasury: String) -> (r: Result<
        String,
        HospitalError,
    >)
        ensures
            r is Ok <==> caller@ == old(self)@.owner_account_id,
            r matches Ok(m) ==> m@ == "Tesorero actualizado"@ && final(self)@ == (HospitalView {
                treasury_id: new_treasury@,
                ..old(self)@
            }),
            r is Err ==> final(self)@ == old(self)@,
    {
        self.assert_owner_calling(caller)?;
        self.treasury_id = new_treasury;
        Ok("Tesorero actualizado".to_string())
    }

    /// The lines that `get_contract_info` logs.
    pub fn get_contract_info(&self) -> (lines: Vec<String>)
        ensures
            lines@.len() == 4,
            lines@[0]@ == "Owner Account: "@ + self.owner_account_id@,
            lines@[1]@ == "Treasury Account: "@ + self.treasury_id@,
            lines@[2]@ == "STRW Cost: "@ + decimal(self.cost_strw as nat),
            lines@[3]@ == "Epoch To Restore: "@ + decimal(self.epoch_to_restore as nat),
    {
        let mut lines = Vec::new();
        lines.push(labelled("Owner Account: ", self.owner_account_id.as_str()));
        lines.push(labelled("Treasury Account: ", self.treasury_id.as_str()));
        let cost = u128_to_string(self.cost_strw);
        lines.push(labelled("STRW Cost: ", cost.as_str()));
        let epochs = u64_to_string(self.epoch_to_restore);
        lines.push(labelled("Epoch To Restore: ", epochs.as_str()));
        lines
    }

    /// Frees every capsule of every player.
    pub fn delete_all_capsules(&mut self)
        ensures
            final(self)@ == (HospitalView { capsules: Map::empty(), ..old(self)@ }),
    {
        self.capsules.clear();
        assert(capsules_view(self.capsules@) =~= Map::empty());
    }

    /// Receives a burrito sent by `previous_owner_id` from the NFT contract
    /// `contract_id` at time `now`, for the capsule that `msg` names.  Where the
    /// capsule cannot take it, the burrito goes back (`Value(true)`);
    /// otherwise the burrito contract is asked about the burrito and
    /// `get_burrito_info` decides, with the capsules the player would have.
    pub fn nft_on_transfer(
        &self,
        contract_id: String,
        previous_owner_id: String,
        token_id: String,
        msg: MsgInput,
        now: u64,
    ) -> (r: TransferReply)
        requires
            entry_fits(self@, previous_owner_id@, msg.capsule_number, now),
            capsule_admits(self@, previous_owner_id@, msg.capsule_number) ==> contracts_named(
                self@,
            ),
        ensures
            !capsule_admits(self@, previous_owner_id@, msg.capsule_number) ==> r
                == TransferReply::Value(true),
            capsule_admits(self@, previous_owner_id@, msg.capsule_number) ==> (r matches TransferReply::Promise(call)
                && call@ == (HospitalCallView::InspectBurrito {
                burrito_contract: self.burrito_contract@,
                token_id: token_id@,
                hospital_contract: self.hospital_contract@,
                player: previous_owner_id@,
                capsules: capsules_after_entry(
                    self@,
                    contract_id@,
                    previous_owner_id@,
                    token_id@,
                    msg.capsule_number,
                    now,
                ),
            })),
            capsule_admits(self@, previous_owner_id@, msg.capsule_number) ==> (r matches TransferReply::Promise(
                HospitalCall::InspectBurrito { capsules, .. },
            ) && {
                let c = slot(capsules@, msg.capsule_number);
                &&& c.burrito_id == token_id@
                &&& c.burrito_owner == previous_owner_id@
                &&& c.burrito_contract == contract_id@
                &&& c.start_time == now
            }),
    {
        let capsule_number = msg.capsule_number;
        if capsule_number == 0 || capsule_number >= 4 {
            return TransferReply::Value(true);
        }
        let player = previous_owner_id;
        let ghost cap_view = new_capsule(self@, contract_id@, player@, token_id@, now);
        let mut player_capsules = match self.capsules.get(player.as_str()) {
            None => {
                let new_capsule = Capsule {
                    burrito_id: token_id.clone(),
                    burrito_owner: player.clone(),
                    burrito_contract: contract_id,
                    start_time: now,
                    finish_time: now + EPOCH_NANOS * self.epoch_to_restore,
                };
                let mut player_capsules = RecoveryCapsules {
                    count: 1,
                    capsule1: Capsule::empty(),
                    capsule2: Capsule::empty(),
                    capsule3: Capsule::empty(),
                };
                player_capsules.set_slot(capsule_number, new_capsule);
                player_capsules
            },
            Some(info) => {
                proof {
                    assert(capsules_view(self.capsules@)[player@] == info@);
                }
                if info.count == 3 {
                    return TransferReply::Value(true);
                }
                let new_capsule = Capsule {
                    burrito_id: token_id.clone(),
                    burrito_owner: player.clone(),
                    burrito_contract: contract_id,
                    start_time: now,
                    finish_time: now + EPOCH_NANOS * self.epoch_to_restore,
                };
                let mut player_capsules = info.duplicate();
                player_capsules.count = info.count + 1;
                if player_capsules.slot(capsule_number).burrito_id.unicode_len() != 0 {
                    return TransferReply::Value(true);
                }
                player_capsules.set_slot(capsule_number, new_capsule);
                player_capsules
            },
        };
        TransferReply::Promise(
            HospitalCall::InspectBurrito {
                burrito_contract: self.burrito_contract.clone(),
                token_id,
                hospital_contract: self.hospital_contract.clone(),
                player,
                capsules: player_capsules,
            },
        )
    }

    /// Receives the burrito contract's answer about a burrito offered for a
    /// capsule.  A burrito that still has lives, or a failed lookup, sends
    /// the burrito back (`true`).  A burrito without lives stays: the player
    /// is charged the capsule price and `capsules` become the player's.
    pub fn get_burrito_info(
        &mut self,
        player: String,
        capsules: RecoveryCapsules,
        lookup: PromiseOutcome<Burrito>,
    ) -> (r: (bool, Option<HospitalCall>))
        requires
            lookup matches PromiseOutcome::Successful(b) ==> {
                &&& parse_u8_spec(b.hp@) is Some
                &&& parse_u8_spec(b.hp@).unwrap() == 0 ==> valid_account_id(
                    old(self)@.strw_contract,
                )
            },
        ensures
            match lookup {
                PromiseOutcome::Failed => r.0 && r.1 is None && final(self)@ == old(self)@,
                PromiseOutcome::Successful(b) => if parse_u8_spec(b.hp@).unwrap() > 0 {
                    r.0 && r.1 is None && final(self)@ == old(self)@
                } else {
                    &&& !r.0
                    &&& r.1 matches Some(call) && call@ == (HospitalCallView::ChargeCapsule {
                        strw_contract: old(self)@.strw_contract,
                        player: player@,
                        action: "Capsule"@,
                        treasury_id: old(self)@.treasury_id,
                        cost: old(self)@.cost_strw,
                    })
                    &&& final(self)@ == (HospitalView {
                        capsules: old(self)@.capsules.insert(player@, capsules@),
                        ..old(self)@
                    })
                },
            },
    {
        match lookup {
            PromiseOutcome::Failed => (true, None),
            PromiseOutcome::Successful(burrito) => {
                let hp = parse_u8(burrito.hp.as_str()).unwrap();
                if hp > 0 {
                    return (true, None);
                }
                let call = HospitalCall::ChargeCapsule {
                    strw_contract: self.strw_contract.clone(),
                    player: player.clone(),
                    action: "Capsule".to_string(),
                    treasury_id: self.treasury_id.clone(),
                    cost: self.cost_strw,
                };
                let ghost old_capsules = self.capsules@;
                let ghost kept = capsules@;
                self.capsules.insert(player, capsules);
                assert(capsules_view(self.capsules@) =~= capsules_view(old_capsules).insert(
                    player@,
                    kept,
                ));
                (false, Some(call))
            },
        }
    }

    /// The capsules of `player`; all free, with count 0, for a player the
    /// hospital does not know.
    pub fn get_player_capsules(&self, player: &str) -> (r: RecoveryCapsules)
        ensures
            r@ == if self@.capsules.contains_key(player@) {
                self@.capsules[player@]
            } else {
                no_capsules()
            },
    {
        match self.capsules.get(player) {
            None => RecoveryCapsules {
                count: 0,
                capsule1: Capsule::empty(),
                capsule2: Capsule::empty(),
                capsule3: Capsule::empty(),
            },
            Some(info) => info.duplicate(),
        }
    }

    /// Withdraws the burrito of capsule `capsule_number` for `player`, who
    /// attached `deposit`, at time `now`.  Refused withdrawals change nothing;
    /// a granted one frees the capsule and asks the burrito contract to
    /// restore the burrito's lives and then to send it back to the player.
    pub fn withdraw_burrito_owner(
        &mut self,
        player: String,
        deposit: u128,
        now: u64,
        capsule_number: u64,
    ) -> (r: (ClaimedBurrito, Option<HospitalCall>))
        requires
            !withdraw_panics(old(self)@, player@, capsule_number, now),
        ensures
            match withdraw_refusal(old(self)@, player@, capsule_number, now) {
                Some(msg) => {
                    &&& r.0@ == (ClaimedBurritoView {
                        complete: false,
                        msg,
                        burrito_id: Seq::empty(),
                    })
                    &&& r.1 is None
                    &&& final(self)@ == old(self)@
                },
                None => {
                    let cap = slot(old(self)@.capsules[player@], capsule_number);
                    &&& r.0@ == (ClaimedBurritoView {
                        complete: true,
                        msg: "El burrito recuperó sus vidas"@,
                        burrito_id: cap.burrito_id,
                    })
                    &&& r.1 matches Some(call) && call@ == (HospitalCallView::RestoreAndReturn {
                        burrito_contract: old(self)@.burrito_contract,
                        burrito_id: cap.burrito_id,
                        nft_contract: cap.burrito_contract,
                        receiver_id: player@,
                        deposit,
                    })
                    &&& final(self)@ == after_withdraw(old(self)@, player@, capsule_number)
                },
            },
    {
        let info = match self.capsules.get(player.as_str()) {
            None => {
                return (ClaimedBurrito::refused("No hay ninguna capsula registrada"), None);
            },
            Some(info) => info,
        };
        proof {
            assert(capsules_view(self.capsules@)[player@] == info@);
        }
        if capsule_number == 0 || capsule_number >= 4 {
            return (ClaimedBurrito::refused("No existe la capsula ingresada"), None);
        }
        let capsule = info.slot(capsule_number);
        if capsule.burrito_id.unicode_len() == 0 {
            let msg = if capsule_number == 1 {
                "No hay burrito en la capsula 1"
            } else if capsule_number == 2 {
                "No hay burrito en la capsula 2"
            } else {
                "No hay burrito en la capsula 3"
            };
            return (ClaimedBurrito::refused(msg), None);
        }
        if player != capsule.burrito_owner {
            return (ClaimedBurrito::refused("No eres el dueño del burrito"), None);
        }
        if now < capsule.finish_time {
            return (ClaimedBurrito::refused("Aún no finaliza el tiempo de restauración"), None);
        }
        let call = HospitalCall::RestoreAndReturn {
            burrito_contract: self.burrito_contract.clone(),
            burrito_id: capsule.burrito_id.clone(),
            nft_contract: capsule.burrito_contract.clone(),
            receiver_id: player.clone(),
            deposit,
        };
        let res = ClaimedBurrito {
            complete: true,
            msg: "El burrito recuperó sus vidas".to_string(),
            burrito_id: capsule.burrito_id.clone(),
        };
        let mut player_capsules = info.duplicate();
        player_capsules.count = info.count - 1;
        player_capsules.set_slot(capsule_number, Capsule::empty());
        let ghost old_capsules = self.capsules@;
        let ghost kept = player_capsules@;
        self.capsules.insert(player, player_capsules);
        assert(capsules_view(self.capsules@) =~= capsules_view(old_capsules).insert(player@, kept));
        (res, Some(call))
    }

    /// The withdrawal, where it does not panic; `None`, and nothing changed,
    /// where the contract panics: the capsule's recorded owner is no valid
    /// account name (it is compared as an account), or a granted withdrawal
    /// finds the burrito contract or the capsule's NFT contract no account
    /// name, or the count of capsules in use at 0.
    pub fn try_withdraw_burrito_owner(
        &mut self,
        player: String,
        deposit: u128,
        now: u64,
        capsule_number: u64,
    ) -> (r: Option<(ClaimedBurrito, Option<HospitalCall>)>)
        ensures
            r is None <==> withdraw_panics(old(self)@, player@, capsule_number, now),
            r is None ==> final(self)@ == old(self)@,
            r matches Some(out) ==> match withdraw_refusal(old(self)@, player@, capsule_number, now) {
                Some(msg) => {
                    &&& out.0@ == (ClaimedBurritoView {
                        complete: false,
                        msg,
                        burrito_id: Seq::empty(),
                    })
                    &&& out.1 is None
                    &&& final(self)@ == old(self)@
                },
                None => {
                    let cap = slot(old(self)@.capsules[player@], capsule_number);
                    &&& out.0@ == (ClaimedBurritoView {
                        complete: true,
                        msg: "El burrito recuperó sus vidas"@,
                        burrito_id: cap.burrito_id,
                    })
                    &&& out.1 matches Some(call) && call@ == (HospitalCallView::RestoreAndReturn {
                        burrito_contract: old(self)@.burrito_contract,
                        burrito_id: cap.burrito_id,
                        nft_contract: cap.burrito_contract,
                        receiver_id: player@,
                        deposit,
                    })
                    &&& final(self)@ == after_withdraw(old(self)@, player@, capsule_number)
                },
            },
    {
        if let Some(info) = self.capsules.get(player.as_str()) {
            proof {
                assert(capsules_view(self.capsules@)[player@] == info@);
            }
            if 1 <= capsule_number && capsule_number <= 3 {
                let capsule = info.slot(capsule_number);
                if capsule.burrito_id.unicode_len() != 0 {
                    if !is_valid_account_id(capsule.burrito_owner.as_str()) {
                        return None;
                    }
                    if player == capsule.burrito_owner && now >= capsule.finish_time {
                        if !is_valid_account_id(self.burrito_contract.as_str())
                            || !is_valid_account_id(capsule.burrito_contract.as_str())
                            || info.count == 0 {
                            return None;
                        }
                    }
                }
            }
        }
        Some(self.withdraw_burrito_owner(player, deposit, now, capsule_number))
    }
}


// ------------------------------------------------------------------------
// Laws
// ------------------------------------------------------------------------

/// 1 for a capsule in use, 0 for a free one.
pub open spec fn in_use(c: CapsuleView) -> nat {
    if c.burrito_id.len() > 0 {
        1
    } else {
        0
    }
}

/// The count of a player's capsules agrees with the capsules in use.
pub open spec fn count_consistent(r: RecoveryCapsulesView) -> bool {
    r.count == in_use(r.capsule1) + in_use(r.capsule2) + in_use(r.capsule3)
}

/// The capsules that `get_player_capsules` answers for `player`.
pub open spec fn player_capsules(s: HospitalView, player: Seq<char>) -> RecoveryCapsulesView {
    if s.capsules.contains_key(player) {
        s.capsules[player]
    } else {
        no_capsules()
    }
}

/// The hospital once a burrito entered capsule `n`: `get_burrito_info` keeps
/// the capsules that `nft_on_transfer` asked about.
pub open spec fn after_entry(
    s: HospitalView,
    contract_id: Seq<char>,
    player: Seq<char>,
    token_id: Seq<char>,
    n: u64,
    now: u64,
) -> HospitalView {
    HospitalView {
        capsules: s.capsules.insert(
            player,
            capsules_after_entry(s, contract_id, player, token_id, n, now),
        ),
        ..s
    }
}

/// Law: admitting a burrito (with a non-empty id) into a capsule keeps a
/// player's count of capsules equal to the capsules in use.
pub proof fn law_entry_keeps_count(
    s: HospitalView,
    contract_id: Seq<char>,
    player: Seq<char>,
    token_id: Seq<char>,
    n: u64,
    now: u64,
)
    requires
        capsule_admits(s, player, n),
        entry_fits(s, player, n, now),
        token_id.len() > 0,
        s.capsules.contains_key(player) ==> count_consistent(s.capsules[player]),
    ensures
        count_consistent(capsules_after_entry(s, contract_id, player, token_id, n, now)),
{
}

/// Law: an admitted burrito reads back: `get_player_capsules` answers the
/// capsules that `nft_on_transfer` asked about, with the burrito, its owner
/// and its restoration time in capsule `n`.
pub proof fn law_entry_is_read_back(
    s: HospitalView,
    contract_id: Seq<char>,
    player: Seq<char>,
    token_id: Seq<char>,
    n: u64,
    now: u64,
)
    requires
        valid_capsule_number(n),
    ensures
        player_capsules(after_entry(s, contract_id, player, token_id, n, now), player)
            == capsules_after_entry(s, contract_id, player, token_id, n, now),
        slot(capsules_after_entry(s, contract_id, player, token_id, n, now), n) == new_capsule(
            s,
            contract_id,
            player,
            token_id,
            now,
        ),
{
}

/// Law: an admitted burrito goes into capsule `n` with its token, the
/// sender as owner, the NFT contract that sent it, the time it came and the
/// time its restoration ends, whether or not the player had capsules; the
/// player's other capsules stay as they were and one more is in use.
pub proof fn law_entry_records_the_burrito(
    s: HospitalView,
    contract_id: Seq<char>,
    player: Seq<char>,
    token_id: Seq<char>,
    n: u64,
    now: u64,
)
    requires
        valid_capsule_number(n),
        finish_time_fits(s, now),
        s.capsules.contains_key(player) ==> s.capsules[player].count < u64::MAX,
    ensures
        ({
            let after = capsules_after_entry(s, contract_id, player, token_id, n, now);
            let c = slot(after, n);
            &&& c.burrito_id == token_id
            &&& c.burrito_owner == player
            &&& c.burrito_contract == contract_id
            &&& c.start_time == now
            &&& c.finish_time == now + EPOCH_NANOS * s.epoch_to_restore
            &&& forall|m: u64|
                valid_capsule_number(m) && m != n ==> #[trigger] slot(after, m) == slot(
                    player_capsules(s, player),
                    m,
                )
            &&& after.count == player_capsules(s, player).count + 1
        }),
{
}

/// Law: a granted withdrawal keeps a player's count of capsules equal to the
/// capsules in use.
pub proof fn law_withdraw_keeps_count(s: HospitalView, player: Seq<char>, n: u64, now: u64)
    requires
        withdraw_refusal(s, player, n, now) is None,
        count_consistent(s.capsules[player]),
    ensures
        count_consistent(after_withdraw(s, player, n).capsules[player]),
{
}

/// Law: a capsule holds a burrito until its restoration time, and the
/// player who put it in then takes it back, leaving the player's capsules as
/// they were before.
pub proof fn law_withdraw_undoes_entry(
    s: HospitalView,
    contract_id: Seq<char>,
    player: Seq<char>,
    token_id: Seq<char>,
    n: u64,
    now: u64,
    later: u64,
)
    requires
        capsule_admits(s, player, n),
        entry_fits(s, player, n, now),
        token_id.len() > 0,
        slot(player_capsules(s, player), n) == empty_capsule(),
    ensures
        ({
            let s1 = after_entry(s, contract_id, player, token_id, n, now);
            let done = (now + EPOCH_NANOS * s.epoch_to_restore) as u64;
            &&& later < done ==> withdraw_refusal(s1, player, n, later) == Some(
                "Aún no finaliza el tiempo de restauración"@,
            )
            &&& later >= done ==> withdraw_refusal(s1, player, n, later) is None
                && player_capsules(after_withdraw(s1, player, n), player) == player_capsules(
                s,
                player,
            )
        }),
{
    let s1 = after_entry(s, contract_id, player, token_id, n, now);
    let before = player_capsules(s, player);
    let rec = capsules_after_entry(s, contract_id, player, token_id, n, now);
    assert(s1.capsules[player] == rec);
    if s.capsules.contains_key(player) {
        assert(before == s.capsules[player]);
    }
    let after = after_withdraw(s1, player, n).capsules[player];
    assert(after == with_slot(
        RecoveryCapsulesView { count: (rec.count - 1) as u64, ..rec },
        n,
        empty_capsule(),
    ));
}

} // verus!
