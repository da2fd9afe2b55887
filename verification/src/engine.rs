//! The registry of accounts: routes every event to the account of the
//! client it names, creating that account on first reference.

use vstd::prelude::*;

use crate::account::AccountView;
use crate::account::ClientAccount;
use crate::events::DisputeAction;
use crate::events::Transaction;

verus! {

/// No two entries belong to the same client.
pub open spec fn distinct_clients(s: Seq<AccountView>) -> bool {
    forall|i: int, j: int|
        #![trigger s[i].id, s[j].id]
        0 <= i < j < s.len() ==> s[i].id != s[j].id
}

/// Some entry belongs to `client`.
pub open spec fn has_client(s: Seq<AccountView>, client: u16) -> bool {
    exists|i: int| 0 <= i < s.len() && #[trigger] s[i].id == client
}

/// The index of `client`'s entry (meaningful when `has_client` holds; the
/// index is unique under `distinct_clients`).
pub open spec fn client_index(s: Seq<AccountView>, client: u16) -> int {
    choose|i: int| 0 <= i < s.len() && #[trigger] s[i].id == client
}

/// The entry of `client`.
pub open spec fn client_view(s: Seq<AccountView>, client: u16) -> AccountView {
    s[client_index(s, client)]
}

/// Under `distinct_clients`, an entry with the right id at `i` pins
/// `client_index` to `i`.
pub proof fn lemma_client_index_is(s: Seq<AccountView>, client: u16, i: int)
    requires
        distinct_clients(s),
        0 <= i < s.len(),
        s[i].id == client,
    ensures
        has_client(s, client),
        client_index(s, client) == i,
        client_view(s, client) == s[i],
{
    assert(has_client(s, client));
    let k = client_index(s, client);
    assert(0 <= k < s.len() && s[k].id == client);
    if k < i {
        assert(s[k].id != s[i].id);
    } else if i < k {
        assert(s[i].id != s[k].id);
    }
}

/// The registry: one [`ClientAccount`] per client ever referenced.
pub struct PaymentEngine {
    pub state: Vec<ClientAccount>,
}

impl View for PaymentEngine {
    type V = Seq<AccountView>;

    open spec fn view(&self) -> Seq<AccountView> {
        self.state@.map_values(|a: ClientAccount| a@)
    }
}

impl PaymentEngine {
    /// All accounts well-formed, no client twice.
    pub open spec fn wf(self) -> bool {
        &&& distinct_clients(self@)
        &&& forall|i: int| 0 <= i < self@.len() ==> (#[trigger] self@[i]).wf()
    }

    pub fn new() -> (r: PaymentEngine)
        ensures
            r@ == Seq::<AccountView>::empty(),
            r.wf(),
    {
        let r = PaymentEngine { state: Vec::new() };
        proof {
            assert(r@ =~= Seq::<AccountView>::empty());
        }
        r
    }

    /// The index of `client`'s account, if one exists.
    fn find_client(&self, client: u16) -> (r: Option<usize>)
        ensures
            match r {
                Some(i) => 0 <= i < self@.len() && self@[i as int].id == client,
                None => !has_client(self@, client),
            },
    {
        let n = self.state.len();
        let mut i: usize = 0;
        while i < n
            invariant
                i <= n == self@.len(),
                forall|j: int| 0 <= j < i ==> self@[j].id != client,
            decreases n - i,
        {
            if self.state[i].id == client {
                return Some(i);
            }
            i = i + 1;
        }
        None
    }

    /// Routes one transaction to the account of the client it names, creating
    /// that account first if this is the client's first event.  Routing never
    /// fails: the account is looked up by the transaction's own client id.
    pub fn add_transaction(&mut self, transaction: Transaction)
        requires
            old(self).wf(),
            transaction.wf(),
        ensures
            final(self).wf(),
            has_client(old(self)@, transaction.spec_client_id()) ==> final(self)@ == old(
                self,
            )@.update(
                client_index(old(self)@, transaction.spec_client_id()),
                client_view(old(self)@, transaction.spec_client_id()).apply_transaction(
                    transaction,
                ),
            ),
            !has_client(old(self)@, transaction.spec_client_id()) ==> final(self)@ == old(
                self,
            )@.push(
                AccountView::initial(transaction.spec_client_id()).apply_transaction(transaction),
            ),
    {
        let client = *transaction.get_client_id();
        match self.find_client(client) {
            Some(i) => {
                proof {
                    lemma_client_index_is(self@, client, i as int);
                }
                let mut account = self.state.remove(i);
                account.add_transaction(transaction).unwrap();
                self.state.insert(i, account);
                proof {
                    assert(self@ =~= old(self)@.update(
                        i as int,
                        old(self)@[i as int].apply_transaction(transaction),
                    ));
                }
            },
            None => {
                let mut account = ClientAccount::new(client);
                account.add_transaction(transaction).unwrap();
                self.state.push(account);
                proof {
                    assert(self@ =~= old(self)@.push(
                        AccountView::initial(client).apply_transaction(transaction),
                    ));
                }
            },
        }
    }

    /// Routes one dispute action exactly as `add_transaction` routes a
    /// transaction; an account is created (and then left untouched by the
    /// action, whose reference cannot exist there) even when the action is
    /// the first event naming its client.
    pub fn add_dispute_action(&mut self, dispute_action: DisputeAction)
        requires
            old(self).wf(),
        ensures
            final(self).wf(),
            has_client(old(self)@, dispute_action.spec_client_id()) ==> final(self)@ == old(
                self,
            )@.update(
                client_index(old(self)@, dispute_action.spec_client_id()),
                client_view(old(self)@, dispute_action.spec_client_id()).apply_dispute_action(
                    dispute_action,
                ),
            ),
            !has_client(old(self)@, dispute_action.spec_client_id()) ==> final(self)@ == old(
                self,
            )@.push(
                AccountView::initial(dispute_action.spec_client_id()).apply_dispute_action(
                    dispute_action,
                ),
            ),
    {
        let client = *dispute_action.get_client_id();
        match self.find_client(client) {
            Some(i) => {
                proof {
                    lemma_client_index_is(self@, client, i as int);
                }
                let mut account = self.state.remove(i);
                account.add_dispute_action(dispute_action).unwrap();
                self.state.insert(i, account);
                proof {
                    assert(self@ =~= old(self)@.update(
                        i as int,
                        old(self)@[i as int].apply_dispute_action(dispute_action),
                    ));
                }
            },
            None => {
                let mut account = ClientAccount::new(client);
                account.add_dispute_action(dispute_action).unwrap();
                self.state.push(account);
                proof {
                    assert(self@ =~= old(self)@.push(
                        AccountView::initial(client).apply_dispute_action(dispute_action),
                    ));
                }
            },
        }
    }

    /// A snapshot of every account that exists, in no promised order.
    pub fn get_all_client_states(&self) -> (r: &Vec<ClientAccount>)
        ensures
            r@.map_values(|a: ClientAccount| a@) == self@,
    {
        &self.state
    }

    /// The account of `client_id`, or `None` when no event ever named that
    /// client.
    pub fn get_client_state(&self, client_id: u16) -> (r: Option<&ClientAccount>)
        requires
            self.wf(),
        ensures
            match r {
                Some(a) => has_client(self@, client_id) && a@ == client_view(self@, client_id),
                None => !has_client(self@, client_id),
            },
    {
        match self.find_client(client_id) {
            Some(i) => {
                proof {
                    lemma_client_index_is(self@, client_id, i as int);
                }
                Some(&self.state[i])
            },
            None => None,
        }
    }
}

impl Default for PaymentEngine {
    fn default() -> (r: PaymentEngine)
        ensures
            r@ == Seq::<AccountView>::empty(),
            r.wf(),
    {
        PaymentEngine::new()
    }
}

} // verus!
