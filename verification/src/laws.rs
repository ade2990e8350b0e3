use vstd::prelude::*;

use crate::contract::{purchase_next, receive_err, setup_config};
use crate::msg::InstantiateMsg;
use crate::state::ConfigV;

verus! {

/// The record after n consecutive successful purchases.
pub open spec fn purchases_after(c: ConfigV, n: nat) -> ConfigV
    decreases n,
{
    if n == 0 {
        c
    } else {
        purchases_after(purchase_next(c), (n - 1) as nat)
    }
}

/// The token ids n consecutive successful purchases mint, in order.
pub open spec fn minted_ids(c: ConfigV, n: nat) -> Seq<int>
    decreases n,
{
    if n == 0 {
        Seq::empty()
    } else {
        seq![c.unused_token_id].add(minted_ids(purchase_next(c), (n - 1) as nat))
    }
}

/// Law: a successful setup yields a well-formed record with no collection
/// linked and nothing minted, whatever the request and the caller.
pub proof fn lemma_setup_well_formed(owner: Seq<char>, msg: InstantiateMsg)
    requires
        msg.unit_price != 0,
        msg.max_tokens != 0,
    ensures
        setup_config(owner, msg).wf(),
        setup_config(owner, msg).cw721_address is None,
        setup_config(owner, msg).unused_token_id == 0,
{
}

/// Law: one successful purchase preserves well-formedness and every field of
/// the record except the token counter, which advances by exactly one.
pub proof fn lemma_purchase_step(c: ConfigV, info_sender: Seq<char>, amount: u128)
    requires
        c.wf(),
        receive_err(c, info_sender, amount) is None,
    ensures
        purchase_next(c).wf(),
        purchase_next(c).unused_token_id == c.unused_token_id + 1,
        purchase_next(c) == (ConfigV { unused_token_id: c.unused_token_id + 1, ..c }),
{
}

/// Helper for `lemma_sequential_mints`, from an arbitrary counter position:
/// n purchases advance the counter by n, change nothing else, each step is
/// permitted, and the minted ids count up from the starting counter.
proof fn lemma_mints_from(c: ConfigV, info_sender: Seq<char>, amount: u128, n: nat)
    requires
        c.wf(),
        c.cw721_address is Some,
        c.cw20_address == info_sender,
        amount as int == c.unit_price,
        c.unused_token_id + n <= c.max_tokens,
    ensures
        purchases_after(c, n) == (ConfigV { unused_token_id: c.unused_token_id + n, ..c }),
        forall|k: nat|
            k < n ==> receive_err(#[trigger] purchases_after(c, k), info_sender, amount) is None,
        minted_ids(c, n).len() == n,
        forall|i: int| 0 <= i < n ==> minted_ids(c, n)[i] == c.unused_token_id + i,
    decreases n,
{
    if n == 0 {
        assert(purchases_after(c, 0) == c);
    } else {
        let c1 = purchase_next(c);
        assert(c1 == (ConfigV { unused_token_id: c.unused_token_id + 1, ..c }));
        lemma_mints_from(c1, info_sender, amount, (n - 1) as nat);
        assert(purchases_after(c, n) == purchases_after(c1, (n - 1) as nat));
        assert(receive_err(purchases_after(c, 0), info_sender, amount) is None);
        assert forall|k: nat| 0 < k < n implies receive_err(
            #[trigger] purchases_after(c, k),
            info_sender,
            amount,
        ) is None by {
            assert(purchases_after(c, k) == purchases_after(c1, (k - 1) as nat));
        }
        assert(minted_ids(c, n) == seq![c.unused_token_id].add(minted_ids(c1, (n - 1) as nat)));
    }
}

/// Law: from a freshly linked record, any run of n consecutive successful
/// purchases (n at most the supply cap) is permitted at every step and mints
/// exactly the ids 0, 1, ..., n-1, in order, one instruction per purchase,
/// with no gaps and no repeats.
pub proof fn lemma_sequential_mints(c: ConfigV, info_sender: Seq<char>, amount: u128, n: nat)
    requires
        c.wf(),
        c.unused_token_id == 0,
        c.cw721_address is Some,
        c.cw20_address == info_sender,
        amount as int == c.unit_price,
        n <= c.max_tokens,
    ensures
        forall|k: nat|
            k < n ==> receive_err(#[trigger] purchases_after(c, k), info_sender, amount) is None,
        minted_ids(c, n).len() == n,
        forall|i: int| 0 <= i < n ==> minted_ids(c, n)[i] == i,
        purchases_after(c, n).unused_token_id == n,
{
    lemma_mints_from(c, info_sender, amount, n);
}

} // verus!
