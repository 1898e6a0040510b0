//! The token ledger: balances, allowances, the administrator and the metadata,
//! with one method per operation.
use vstd::prelude::*;
use crate::allowance::{effective, effective_allowance, no_allowance, spend_allowance, AllowanceValue};
use crate::amount::{check_nonnegative_amount, credit, debit, ContractError};
use crate::store::{
    entries_map, entries_sum, keys_unique, lemma_entries_map_absent, lemma_entries_map_index,
    lemma_entries_map_push, lemma_entries_map_update, lemma_entries_sum_push,
    lemma_entries_sum_update,
};

verus! {

/// An account or contract identity.
#[derive(Clone, Copy, Debug, PartialEq, Eq, Hash, Structural)]
pub struct Address {
    pub id: u64,
}

/// What the host tells one invocation: the current ledger sequence and the
/// principals whose authorization of this call it has verified.
pub struct Env {
    pub sequence: u32,
    pub authorized: Vec<Address>,
}

impl Env {
    /// The host confirmed that `a` authorized the call.
    pub open spec fn authorizes(&self, a: Address) -> bool {
        self.authorized@.contains(a)
    }

    /// The authorization gate: succeeds exactly when `a` authorized the call.
    pub fn require_auth(&self, a: Address) -> (r: Result<(), ContractError>)
        ensures
            r == (if self.authorizes(a) {
                Ok(())
            } else {
                Err(ContractError::UnauthorizedError)
            }),
    {
        let mut i: usize = 0;
        while i < self.authorized.len()
            invariant
                i <= self.authorized@.len(),
                forall|j: int| 0 <= j < i ==> self.authorized@[j] != a,
            decreases self.authorized@.len() - i,
        {
            if self.authorized[i] == a {
                return Ok(());
            }
            i = i + 1;
        }
        Err(ContractError::UnauthorizedError)
    }
}

/// The token's fixed description.
pub struct TokenMetadata {
    pub decimal: u32,
    pub name: String,
    pub symbol: String,
}

/// The metadata as values.
pub ghost struct MetadataView {
    pub decimal: u32,
    pub name: Seq<char>,
    pub symbol: Seq<char>,
}

impl View for TokenMetadata {
    type V = MetadataView;

    open spec fn view(&self) -> MetadataView {
        MetadataView { decimal: self.decimal, name: self.name@, symbol: self.symbol@ }
    }
}

/// A notification that a successful operation publishes.
#[derive(Clone, Copy, Debug, PartialEq, Eq, Structural)]
pub enum TokenEvent {
    Approve { from: Address, spender: Address, amount: i128, expiration_ledger: u32 },
    Transfer { from: Address, to: Address, amount: i128 },
    Burn { from: Address, amount: i128 },
    Mint { admin: Address, to: Address, amount: i128 },
    SetAdmin { admin: Address, new_admin: Address },
}

/// The ledger as values: absent balances and allowances read as zero.
pub ghost struct TokenView {
    pub admin: Option<Address>,
    pub metadata: Option<MetadataView>,
    pub balances: Map<Address, i128>,
    pub allowances: Map<(Address, Address), AllowanceValue>,
}

impl TokenView {
    /// No balance and no stored allowance is negative, and the administrator
    /// and the metadata are set together.
    pub open spec fn valid(self) -> bool {
        &&& forall|a: Address| #[trigger] self.balances.contains_key(a) ==> self.balances[a] >= 0
        &&& forall|k: (Address, Address)| #[trigger] self.allowances.contains_key(k)
            ==> self.allowances[k].amount >= 0
        &&& (self.admin is Some <==> self.metadata is Some)
    }

    pub open spec fn balance(self, a: Address) -> i128 {
        if self.balances.contains_key(a) {
            self.balances[a]
        } else {
            0
        }
    }

    pub open spec fn stored_allowance(self, from: Address, spender: Address) -> AllowanceValue {
        if self.allowances.contains_key((from, spender)) {
            self.allowances[(from, spender)]
        } else {
            no_allowance()
        }
    }

    /// The allowance that `spender` may spend from `from` at ledger sequence `sequence`.
    pub open spec fn allowance(self, from: Address, spender: Address, sequence: u32) -> i128 {
        effective(self.stored_allowance(from, spender), sequence).amount
    }

    pub open spec fn with_balance(self, a: Address, v: i128) -> TokenView {
        TokenView { balances: self.balances.insert(a, v), ..self }
    }

    pub open spec fn with_allowance(self, from: Address, spender: Address, v: AllowanceValue) -> TokenView {
        TokenView { allowances: self.allowances.insert((from, spender), v), ..self }
    }

    pub open spec fn debited(self, a: Address, amount: i128) -> TokenView {
        self.with_balance(a, (self.balance(a) - amount) as i128)
    }

    pub open spec fn credited(self, a: Address, amount: i128) -> TokenView {
        self.with_balance(a, (self.balance(a) + amount) as i128)
    }

    /// The ledger after `amount` moved from `from` to `to`.
    pub open spec fn transferred(self, from: Address, to: Address, amount: i128) -> TokenView {
        self.debited(from, amount).credited(to, amount)
    }

    /// The ledger after `spender` used `amount` of its allowance from `from` at `sequence`.
    pub open spec fn allowance_spent(self, from: Address, spender: Address, sequence: u32, amount: i128) -> TokenView {
        self.with_allowance(
            from,
            spender,
            AllowanceValue {
                amount: (self.allowance(from, spender, sequence) - amount) as i128,
                expiration_ledger: self.stored_allowance(from, spender).expiration_ledger,
            },
        )
    }

    /// Construction succeeds only on an instance that has none yet.
    pub open spec fn construct_outcome(self) -> Result<(), ContractError> {
        if self.admin is Some {
            Err(ContractError::AlreadyInitializedError)
        } else {
            Ok(())
        }
    }

    pub open spec fn constructed(self, admin: Address, metadata: MetadataView) -> TokenView {
        TokenView { admin: Some(admin), metadata: Some(metadata), ..self }
    }

    pub open spec fn approve_outcome(
        self,
        e: Env,
        from: Address,
        spender: Address,
        amount: i128,
        expiration_ledger: u32,
    ) -> Result<TokenEvent, ContractError> {
        if !e.authorizes(from) {
            Err(ContractError::UnauthorizedError)
        } else if amount < 0 {
            Err(ContractError::NegativeAmountError)
        } else {
            Ok(TokenEvent::Approve { from, spender, amount, expiration_ledger })
        }
    }

    pub open spec fn approved(self, from: Address, spender: Address, amount: i128, expiration_ledger: u32) -> TokenView {
        self.with_allowance(from, spender, AllowanceValue { amount, expiration_ledger })
    }

    /// Whether moving `amount` from `from` to `to` succeeds once authorized, and
    /// which error it meets first.
    pub open spec fn move_outcome(self, from: Address, to: Address, amount: i128) -> Result<(), ContractError> {
        if self.balance(from) < amount {
            Err(ContractError::BalanceError)
        } else if self.debited(from, amount).balance(to) + amount > i128::MAX {
            Err(ContractError::OverflowError)
        } else {
            Ok(())
        }
    }

    pub open spec fn transfer_outcome(self, e: Env, from: Address, to: Address, amount: i128) -> Result<TokenEvent, ContractError> {
        if !e.authorizes(from) {
            Err(ContractError::UnauthorizedError)
        } else if amount < 0 {
            Err(ContractError::NegativeAmountError)
        } else if let Err(err) = self.move_outcome(from, to, amount) {
            Err(err)
        } else {
            Ok(TokenEvent::Transfer { from, to, amount })
        }
    }

    pub open spec fn transfer_from_outcome(
        self,
        e: Env,
        spender: Address,
        from: Address,
        to: Address,
        amount: i128,
    ) -> Result<TokenEvent, ContractError> {
        if !e.authorizes(spender) {
            Err(ContractError::UnauthorizedError)
        } else if amount < 0 {
            Err(ContractError::NegativeAmountError)
        } else if self.allowance(from, spender, e.sequence) < amount {
            Err(ContractError::AllowanceError)
        } else if let Err(err) = self.move_outcome(from, to, amount) {
            Err(err)
        } else {
            Ok(TokenEvent::Transfer { from, to, amount })
        }
    }

    pub open spec fn burn_outcome(self, e: Env, from: Address, amount: i128) -> Result<TokenEvent, ContractError> {
        if !e.authorizes(from) {
            Err(ContractError::UnauthorizedError)
        } else if amount < 0 {
            Err(ContractError::NegativeAmountError)
        } else if self.balance(from) < amount {
            Err(ContractError::BalanceError)
        } else {
            Ok(TokenEvent::Burn { from, amount })
        }
    }

    pub open spec fn burn_from_outcome(self, e: Env, spender: Address, from: Address, amount: i128) -> Result<TokenEvent, ContractError> {
        if !e.authorizes(spender) {
            Err(ContractError::UnauthorizedError)
        } else if amount < 0 {
            Err(ContractError::NegativeAmountError)
        } else if self.allowance(from, spender, e.sequence) < amount {
            Err(ContractError::AllowanceError)
        } else if self.balance(from) < amount {
            Err(ContractError::BalanceError)
        } else {
            Ok(TokenEvent::Burn { from, amount })
        }
    }

    pub open spec fn mint_outcome(self, e: Env, to: Address, amount: i128) -> Result<TokenEvent, ContractError> {
        match self.admin {
            None => Err(ContractError::InternalError),
            Some(admin) => if !e.authorizes(admin) {
                Err(ContractError::UnauthorizedError)
            } else if amount < 0 {
                Err(ContractError::NegativeAmountError)
            } else if self.balance(to) + amount > i128::MAX {
                Err(ContractError::OverflowError)
            } else {
                Ok(TokenEvent::Mint { admin, to, amount })
            },
        }
    }

    pub open spec fn set_admin_outcome(self, e: Env, new_admin: Address) -> Result<TokenEvent, ContractError> {
        match self.admin {
            None => Err(ContractError::InternalError),
            Some(admin) => if !e.authorizes(admin) {
                Err(ContractError::UnauthorizedError)
            } else {
                Ok(TokenEvent::SetAdmin { admin, new_admin })
            },
        }
    }

    pub open spec fn with_admin(self, new_admin: Address) -> TokenView {
        TokenView { admin: Some(new_admin), ..self }
    }
}

/// The token contract's state.
pub struct Token {
    admin: Option<Address>,
    metadata: Option<TokenMetadata>,
    balances: Vec<(Address, i128)>,
    allowances: Vec<((Address, Address), AllowanceValue)>,
}

impl View for Token {
    type V = TokenView;

    closed spec fn view(&self) -> TokenView {
        TokenView {
            admin: self.admin,
            metadata: match self.metadata {
                Some(m) => Some(m@),
                None => None,
            },
            balances: entries_map(self.balances@),
            allowances: entries_map(self.allowances@),
        }
    }
}

impl Token {
    /// The total supply: the sum of all balances.
    pub closed spec fn total_supply(&self) -> int {
        entries_sum(self.balances@)
    }

    /// The ledger's lists hold each key once and its values are valid.
    pub closed spec fn wf(&self) -> bool {
        &&& keys_unique(self.balances@)
        &&& keys_unique(self.allowances@)
        &&& self@.valid()
    }

    /// A contract instance before construction: no administrator, no metadata,
    /// no balances and no allowances.
    pub fn new() -> (r: Token)
        ensures
            r.wf(),
            r@.admin is None,
            r@.metadata is None,
            r@.balances == Map::<Address, i128>::empty(),
            r@.allowances == Map::<(Address, Address), AllowanceValue>::empty(),
            r.total_supply() == 0,
    {
        let r = Token { admin: None, metadata: None, balances: Vec::new(), allowances: Vec::new() };
        assert(entries_map(r.balances@) =~= Map::<Address, i128>::empty());
        assert(entries_map(r.allowances@) =~= Map::<(Address, Address), AllowanceValue>::empty());
        r
    }

    fn find_balance(&self, a: Address) -> (r: Option<usize>)
        ensures
            match r {
                Some(i) => i < self.balances@.len() && self.balances@[i as int].0 == a,
                None => forall|j: int| 0 <= j < self.balances@.len() ==> self.balances@[j].0 != a,
            },
    {
        let mut i: usize = 0;
        while i < self.balances.len()
            invariant
                i <= self.balances@.len(),
                forall|j: int| 0 <= j < i ==> self.balances@[j].0 != a,
            decreases self.balances@.len() - i,
        {
            if self.balances[i].0 == a {
                return Some(i);
            }
            i = i + 1;
        }
        None
    }

    fn find_allowance(&self, from: Address, spender: Address) -> (r: Option<usize>)
        ensures
            match r {
                Some(i) => i < self.allowances@.len() && self.allowances@[i as int].0 == (from, spender),
                None => forall|j: int|
                    0 <= j < self.allowances@.len() ==> self.allowances@[j].0 != (from, spender),
            },
    {
        let mut i: usize = 0;
        while i < self.allowances.len()
            invariant
                i <= self.allowances@.len(),
                forall|j: int| 0 <= j < i ==> self.allowances@[j].0 != (from, spender),
            decreases self.allowances@.len() - i,
        {
            let key = self.allowances[i].0;
            if key.0 == from && key.1 == spender {
                return Some(i);
            }
            i = i + 1;
        }
        None
    }

    /// Reads a balance; an account never credited holds zero.
    fn read_balance(&self, a: Address) -> (r: i128)
        requires
            self.wf(),
        ensures
            r == self@.balance(a),
            r >= 0,
    {
        match self.find_balance(a) {
            Some(i) => {
                proof {
                    lemma_entries_map_index(self.balances@, i as int);
                    assert(self@.balances.contains_key(a));
                }
                self.balances[i].1
            },
            None => {
                proof {
                    lemma_entries_map_absent(self.balances@, a);
                }
                0
            },
        }
    }

    fn write_balance(&mut self, a: Address, v: i128)
        requires
            old(self).wf(),
            v >= 0,
        ensures
            final(self).wf(),
            final(self)@ == old(self)@.with_balance(a, v),
            final(self).total_supply() == old(self).total_supply() - old(self)@.balance(a) + v,
    {
        match self.find_balance(a) {
            Some(i) => {
                proof {
                    lemma_entries_map_index(self.balances@, i as int);
                    lemma_entries_map_update(self.balances@, i as int, (a, v));
                    lemma_entries_sum_update(self.balances@, i as int, (a, v));
                }
                self.balances.set(i, (a, v));
            },
            None => {
                proof {
                    lemma_entries_map_absent(self.balances@, a);
                    lemma_entries_map_push(self.balances@, (a, v));
                    lemma_entries_sum_push(self.balances@, (a, v));
                }
                self.balances.push((a, v));
            },
        }
        assert(final(self)@ =~= old(self)@.with_balance(a, v));
    }

    /// Reads the stored allowance; one never approved is zero, expiring at zero.
    fn read_stored_allowance(&self, from: Address, spender: Address) -> (r: AllowanceValue)
        requires
            self.wf(),
        ensures
            r == self@.stored_allowance(from, spender),
            r.amount >= 0,
    {
        match self.find_allowance(from, spender) {
            Some(i) => {
                proof {
                    lemma_entries_map_index(self.allowances@, i as int);
                    assert(self@.allowances.contains_key((from, spender)));
                }
                self.allowances[i].1
            },
            None => {
                proof {
                    lemma_entries_map_absent(self.allowances@, (from, spender));
                }
                AllowanceValue { amount: 0, expiration_ledger: 0 }
            },
        }
    }

    fn write_allowance(&mut self, from: Address, spender: Address, v: AllowanceValue)
        requires
            old(self).wf(),
            v.amount >= 0,
        ensures
            final(self).wf(),
            final(self)@ == old(self)@.with_allowance(from, spender, v),
            final(self).total_supply() == old(self).total_supply(),
    {
        let entry = ((from, spender), v);
        match self.find_allowance(from, spender) {
            Some(i) => {
                proof {
                    lemma_entries_map_update(self.allowances@, i as int, entry);
                }
                self.allowances.set(i, entry);
            },
            None => {
                proof {
                    lemma_entries_map_push(self.allowances@, entry);
                }
                self.allowances.push(entry);
            },
        }
        assert(final(self)@ =~= old(self)@.with_allowance(from, spender, v));
    }
}

impl Token {
    /// Works out the balances of `from` and `to` after moving `amount`, without writing them.
    fn plan_move(&self, from: Address, to: Address, amount: i128) -> (r: Result<(i128, i128), ContractError>)
        requires
            self.wf(),
            amount >= 0,
        ensures
            self@.move_outcome(from, to, amount) matches Err(err) ==> r == Err::<(i128, i128), ContractError>(err),
            self@.move_outcome(from, to, amount) is Ok ==> r == Ok::<(i128, i128), ContractError>(
                (
                    (self@.balance(from) - amount) as i128,
                    (self@.debited(from, amount).balance(to) + amount) as i128,
                ),
            ),
            r matches Ok(p) ==> p.0 >= 0 && p.1 >= 0,
    {
        let from_balance = self.read_balance(from);
        let new_from = match debit(from_balance, amount) {
            Ok(v) => v,
            Err(err) => return Err(err),
        };
        let to_balance = if to == from {
            new_from
        } else {
            self.read_balance(to)
        };
        let new_to = match credit(to_balance, amount) {
            Ok(v) => v,
            Err(err) => return Err(err),
        };
        Ok((new_from, new_to))
    }

    /// Works out the stored allowance after `spender` spends `amount` from `from`, without writing it.
    fn plan_spend(&self, e: &Env, from: Address, spender: Address, amount: i128) -> (r: Result<AllowanceValue, ContractError>)
        requires
            self.wf(),
            amount >= 0,
        ensures
            self@.allowance(from, spender, e.sequence) < amount ==> r == Err::<AllowanceValue, ContractError>(
                ContractError::AllowanceError,
            ),
            self@.allowance(from, spender, e.sequence) >= amount ==> r == Ok::<AllowanceValue, ContractError>(
                self@.allowance_spent(from, spender, e.sequence, amount).allowances[(from, spender)],
            ),
            r matches Ok(v) ==> v.amount >= 0,
    {
        let stored = self.read_stored_allowance(from, spender);
        spend_allowance(stored, e.sequence, amount)
    }

    /// Stores the administrator and the metadata, once.
    pub fn __constructor(&mut self, admin: Address, decimal: u32, name: String, symbol: String) -> (r: Result<(), ContractError>)
        requires
            old(self).wf(),
        ensures
            final(self).wf(),
            r == old(self)@.construct_outcome(),
            r is Ok ==> final(self)@ == old(self)@.constructed(
                admin,
                MetadataView { decimal, name: name@, symbol: symbol@ },
            ),
            final(self).total_supply() == old(self).total_supply(),
            r is Err ==> final(self)@ == old(self)@,
    {
        if self.admin.is_some() {
            return Err(ContractError::AlreadyInitializedError);
        }
        self.admin = Some(admin);
        self.metadata = Some(TokenMetadata { decimal, name, symbol });
        Ok(())
    }

    /// The allowance that `spender` may spend from `from` now.
    pub fn allowance(&self, e: &Env, from: Address, spender: Address) -> (r: i128)
        requires
            self.wf(),
        ensures
            r == self@.allowance(from, spender, e.sequence),
    {
        effective_allowance(self.read_stored_allowance(from, spender), e.sequence).amount
    }

    /// Lets `spender` spend up to `amount` of `from`'s balance through ledger `expiration_ledger`,
    /// replacing any earlier allowance.
    pub fn approve(
        &mut self,
        e: &Env,
        from: Address,
        spender: Address,
        amount: i128,
        expiration_ledger: u32,
    ) -> (r: Result<TokenEvent, ContractError>)
        requires
            old(self).wf(),
        ensures
            final(self).wf(),
            r == old(self)@.approve_outcome(*e, from, spender, amount, expiration_ledger),
            r is Ok ==> final(self)@ == old(self)@.approved(from, spender, amount, expiration_ledger),
            final(self).total_supply() == old(self).total_supply(),
            r is Err ==> final(self)@ == old(self)@,
    {
        if let Err(err) = e.require_auth(from) {
            return Err(err);
        }
        if let Err(err) = check_nonnegative_amount(amount) {
            return Err(err);
        }
        self.write_allowance(from, spender, AllowanceValue { amount, expiration_ledger });
        Ok(TokenEvent::Approve { from, spender, amount, expiration_ledger })
    }

    /// The balance of `id`.
    pub fn balance(&self, id: Address) -> (r: i128)
        requires
            self.wf(),
        ensures
            r == self@.balance(id),
    {
        self.read_balance(id)
    }

    /// Moves `amount` from `from` to `to` on `from`'s authority.
    pub fn transfer(&mut self, e: &Env, from: Address, to: Address, amount: i128) -> (r: Result<TokenEvent, ContractError>)
        requires
            old(self).wf(),
        ensures
            final(self).wf(),
            r == old(self)@.transfer_outcome(*e, from, to, amount),
            r is Ok ==> final(self)@ == old(self)@.transferred(from, to, amount),
            final(self).total_supply() == old(self).total_supply(),
            r is Err ==> final(self)@ == old(self)@,
    {
        if let Err(err) = e.require_auth(from) {
            return Err(err);
        }
        if let Err(err) = check_nonnegative_amount(amount) {
            return Err(err);
        }
        let (new_from, new_to) = match self.plan_move(from, to, amount) {
            Ok(p) => p,
            Err(err) => return Err(err),
        };
        self.write_balance(from, new_from);
        self.write_balance(to, new_to);
        Ok(TokenEvent::Transfer { from, to, amount })
    }

    /// Moves `amount` from `from` to `to` on `spender`'s authority, out of its allowance.
    pub fn transfer_from(
        &mut self,
        e: &Env,
        spender: Address,
        from: Address,
        to: Address,
        amount: i128,
    ) -> (r: Result<TokenEvent, ContractError>)
        requires
            old(self).wf(),
        ensures
            final(self).wf(),
            r == old(self)@.transfer_from_outcome(*e, spender, from, to, amount),
            r is Ok ==> final(self)@ == old(self)@.allowance_spent(from, spender, e.sequence, amount).transferred(
                from,
                to,
                amount,
            ),
            final(self).total_supply() == old(self).total_supply(),
            r is Err ==> final(self)@ == old(self)@,
    {
        if let Err(err) = e.require_auth(spender) {
            return Err(err);
        }
        if let Err(err) = check_nonnegative_amount(amount) {
            return Err(err);
        }
        let spent = match self.plan_spend(e, from, spender, amount) {
            Ok(v) => v,
            Err(err) => return Err(err),
        };
        let (new_from, new_to) = match self.plan_move(from, to, amount) {
            Ok(p) => p,
            Err(err) => return Err(err),
        };
        self.write_allowance(from, spender, spent);
        self.write_balance(from, new_from);
        self.write_balance(to, new_to);
        Ok(TokenEvent::Transfer { from, to, amount })
    }

    /// Destroys `amount` of `from`'s balance on `from`'s authority.
    pub fn burn(&mut self, e: &Env, from: Address, amount: i128) -> (r: Result<TokenEvent, ContractError>)
        requires
            old(self).wf(),
        ensures
            final(self).wf(),
            r == old(self)@.burn_outcome(*e, from, amount),
            r is Ok ==> final(self)@ == old(self)@.debited(from, amount),
            r is Ok ==> final(self).total_supply() == old(self).total_supply() - amount,
            r is Err ==> final(self).total_supply() == old(self).total_supply(),
            r is Err ==> final(self)@ == old(self)@,
    {
        if let Err(err) = e.require_auth(from) {
            return Err(err);
        }
        if let Err(err) = check_nonnegative_amount(amount) {
            return Err(err);
        }
        let new_from = match debit(self.read_balance(from), amount) {
            Ok(v) => v,
            Err(err) => return Err(err),
        };
        self.write_balance(from, new_from);
        Ok(TokenEvent::Burn { from, amount })
    }

    /// Destroys `amount` of `from`'s balance on `spender`'s authority, out of its allowance.
    pub fn burn_from(&mut self, e: &Env, spender: Address, from: Address, amount: i128) -> (r: Result<
        TokenEvent,
        ContractError,
    >)
        requires
            old(self).wf(),
        ensures
            final(self).wf(),
            r == old(self)@.burn_from_outcome(*e, spender, from, amount),
            r is Ok ==> final(self)@ == old(self)@.allowance_spent(from, spender, e.sequence, amount).debited(
                from,
                amount,
            ),
            r is Ok ==> final(self).total_supply() == old(self).total_supply() - amount,
            r is Err ==> final(self).total_supply() == old(self).total_supply(),
            r is Err ==> final(self)@ == old(self)@,
    {
        if let Err(err) = e.require_auth(spender) {
            return Err(err);
        }
        if let Err(err) = check_nonnegative_amount(amount) {
            return Err(err);
        }
        let spent = match self.plan_spend(e, from, spender, amount) {
            Ok(v) => v,
            Err(err) => return Err(err),
        };
        let new_from = match debit(self.read_balance(from), amount) {
            Ok(v) => v,
            Err(err) => return Err(err),
        };
        self.write_allowance(from, spender, spent);
        self.write_balance(from, new_from);
        Ok(TokenEvent::Burn { from, amount })
    }

    /// The number of decimals of the token's unit.
    pub fn decimals(&self) -> (r: Result<u32, ContractError>)
        ensures
            r == (match self@.metadata {
                Some(m) => Ok(m.decimal),
                None => Err(ContractError::InternalError),
            }),
    {
        match &self.metadata {
            Some(m) => Ok(m.decimal),
            None => Err(ContractError::InternalError),
        }
    }

    /// The token's name.
    pub fn name(&self) -> (r: Result<String, ContractError>)
        ensures
            match self@.metadata {
                Some(m) => r is Ok && r->Ok_0@ == m.name,
                None => r == Err::<String, ContractError>(ContractError::InternalError),
            },
    {
        match &self.metadata {
            Some(m) => Ok(m.name.clone()),
            None => Err(ContractError::InternalError),
        }
    }

    /// The token's symbol.
    pub fn symbol(&self) -> (r: Result<String, ContractError>)
        ensures
            match self@.metadata {
                Some(m) => r is Ok && r->Ok_0@ == m.symbol,
                None => r == Err::<String, ContractError>(ContractError::InternalError),
            },
    {
        match &self.metadata {
            Some(m) => Ok(m.symbol.clone()),
            None => Err(ContractError::InternalError),
        }
    }

    /// Creates `amount` new units in `to`'s balance on the administrator's authority.
    pub fn mint(&mut self, e: &Env, to: Address, amount: i128) -> (r: Result<TokenEvent, ContractError>)
        requires
            old(self).wf(),
        ensures
            final(self).wf(),
            r == old(self)@.mint_outcome(*e, to, amount),
            r is Ok ==> final(self)@ == old(self)@.credited(to, amount),
            r is Ok ==> final(self).total_supply() == old(self).total_supply() + amount,
            r is Err ==> final(self).total_supply() == old(self).total_supply(),
            r is Err ==> final(self)@ == old(self)@,
    {
        let admin = match self.admin {
            Some(a) => a,
            None => return Err(ContractError::InternalError),
        };
        if let Err(err) = e.require_auth(admin) {
            return Err(err);
        }
        if let Err(err) = check_nonnegative_amount(amount) {
            return Err(err);
        }
        let new_to = match credit(self.read_balance(to), amount) {
            Ok(v) => v,
            Err(err) => return Err(err),
        };
        self.write_balance(to, new_to);
        Ok(TokenEvent::Mint { admin, to, amount })
    }

    /// Hands the administrator's role to `new_admin` on the current administrator's authority.
    pub fn set_admin(&mut self, e: &Env, new_admin: Address) -> (r: Result<TokenEvent, ContractError>)
        requires
            old(self).wf(),
        ensures
            final(self).wf(),
            r == old(self)@.set_admin_outcome(*e, new_admin),
            r is Ok ==> final(self)@ == old(self)@.with_admin(new_admin),
            final(self).total_supply() == old(self).total_supply(),
            r is Err ==> final(self)@ == old(self)@,
    {
        let admin = match self.admin {
            Some(a) => a,
            None => return Err(ContractError::InternalError),
        };
        if let Err(err) = e.require_auth(admin) {
            return Err(err);
        }
        self.admin = Some(new_admin);
        Ok(TokenEvent::SetAdmin { admin, new_admin })
    }

    /// The current administrator.
    pub fn admin(&self) -> (r: Result<Address, ContractError>)
        ensures
            r == (match self@.admin {
                Some(a) => Ok(a),
                None => Err(ContractError::InternalError),
            }),
    {
        match self.admin {
            Some(a) => Ok(a),
            None => Err(ContractError::InternalError),
        }
    }
}

} // verus!
