//! Transaction histories: the lines shown to a user and their order.
use vstd::prelude::*;

use crate::domain::{DomainError, EntryDirection, TxType};
use crate::error::{app_error_of_domain, AppError, AppResult};
use crate::json::{json_get_str, json_is_valid, json_parses, json_str_field};
use crate::models::TxItem;
use crate::text::{seq_lt, str_eq, str_lt};

verus! {

// ------------------------ descriptions ------------------------

/// A field of the metadata, when the metadata is JSON and has it.
pub open spec fn meta_field(meta: Option<Seq<char>>, key: Seq<char>) -> Option<Seq<char>> {
    match meta {
        Some(m) => if json_parses(m) {
            json_str_field(m, key)
        } else {
            None
        },
        None => None,
    }
}

/// How the wallet history describes a line of the given type and direction.
pub open spec fn wallet_description(
    tx_type: Seq<char>,
    dir: EntryDirection,
    meta: Option<Seq<char>>,
) -> Seq<char> {
    match TxType::spec_from_db_str_lossy(tx_type) {
        Some(TxType::Topup) => "Top up"@,
        Some(TxType::Transfer) => match dir {
            EntryDirection::Debit => match meta_field(meta, "to_user_id"@) {
                Some(t) => "Transfer to "@ + t,
                None => "Transfer"@,
            },
            EntryDirection::Credit => match meta_field(meta, "from_user_id"@) {
                Some(f) => "Transfer from "@ + f,
                None => "Incoming transfer"@,
            },
        },
        Some(TxType::Payment) => "Payment"@,
        Some(TxType::Refund) => "Refund"@,
        None => "Operation"@,
    }
}

/// How the per-account history describes a line of the given type, state and direction.
pub open spec fn account_description(
    tx_type: Seq<char>,
    state: Seq<char>,
    dir: EntryDirection,
    meta: Option<Seq<char>>,
) -> Seq<char> {
    match TxType::spec_from_db_str_lossy(tx_type) {
        Some(TxType::Topup) => "Top up"@,
        Some(TxType::Transfer) => match dir {
            EntryDirection::Debit => match meta_field(meta, "to_user_id"@) {
                Some(t) => "Transfer to "@ + t,
                None => "Transfer"@,
            },
            EntryDirection::Credit => match meta_field(meta, "from_user_id"@) {
                Some(f) => "Transfer from "@ + f,
                None => "Transfer"@,
            },
        },
        Some(TxType::Payment) => if state == "authorized"@ {
            "Hold (authorized)"@
        } else if state == "posted"@ {
            "Card payment"@
        } else if state == "reversed"@ {
            "Hold (reversed)"@
        } else if state == "refunded"@ {
            "Refund"@
        } else {
            "Payment"@
        },
        Some(TxType::Refund) => "Refund"@,
        None => tx_type,
    }
}

/// How a hold without ledger entries is described, by its state.
pub open spec fn hold_description(state: Seq<char>) -> Seq<char> {
    if state == "authorized"@ {
        "Hold (authorized)"@
    } else if state == "reversed"@ {
        "Hold (reversed)"@
    } else {
        "Hold"@
    }
}

fn meta_field_exec(meta: &Option<String>, key: &str) -> (r: Option<String>)
    ensures
        match meta_field(
            match meta {
                Some(m) => Some(m@),
                None => None,
            },
            key@,
        ) {
            Some(v) => r matches Some(rv) && rv@ == v,
            None => r is None,
        },
{
    match meta {
        Some(m) => {
            if json_is_valid(m.as_str()) {
                json_get_str(m.as_str(), key)
            } else {
                None
            }
        },
        None => None,
    }
}

/// The view of optional text.
pub open spec fn opt_view(o: Option<String>) -> Option<Seq<char>> {
    match o {
        Some(s) => Some(s@),
        None => None,
    }
}

fn transfer_words(dir: EntryDirection, meta: &Option<String>, incoming_fallback: &str) -> (r: String)
    ensures
        r@ == match dir {
            EntryDirection::Debit => match meta_field(opt_view(*meta), "to_user_id"@) {
                Some(t) => "Transfer to "@ + t,
                None => "Transfer"@,
            },
            EntryDirection::Credit => match meta_field(opt_view(*meta), "from_user_id"@) {
                Some(f) => "Transfer from "@ + f,
                None => incoming_fallback@,
            },
        },
{
    match dir {
        EntryDirection::Debit => match meta_field_exec(meta, "to_user_id") {
            Some(t) => "Transfer to ".to_owned().concat(t.as_str()),
            None => "Transfer".to_owned(),
        },
        EntryDirection::Credit => match meta_field_exec(meta, "from_user_id") {
            Some(f) => "Transfer from ".to_owned().concat(f.as_str()),
            None => incoming_fallback.to_owned(),
        },
    }
}

/// The wallet-history description of a line.
pub fn describe_wallet_line(tx_type: &str, dir: EntryDirection, meta: &Option<String>) -> (r: String)
    ensures
        r@ == wallet_description(tx_type@, dir, opt_view(*meta)),
{
    match TxType::from_db_str_lossy(tx_type) {
        Some(TxType::Topup) => "Top up".to_owned(),
        Some(TxType::Transfer) => transfer_words(dir, meta, "Incoming transfer"),
        Some(TxType::Payment) => "Payment".to_owned(),
        Some(TxType::Refund) => "Refund".to_owned(),
        None => "Operation".to_owned(),
    }
}

/// The per-account description of a line.
pub fn describe_account_line(tx_type: &str, state: &str, dir: EntryDirection, meta: &Option<String>) -> (r: String)
    ensures
        r@ == account_description(tx_type@, state@, dir, opt_view(*meta)),
{
    match TxType::from_db_str_lossy(tx_type) {
        Some(TxType::Topup) => "Top up".to_owned(),
        Some(TxType::Transfer) => transfer_words(dir, meta, "Transfer"),
        Some(TxType::Payment) => {
            if str_eq(state, "authorized") {
                "Hold (authorized)".to_owned()
            } else if str_eq(state, "posted") {
                "Card payment".to_owned()
            } else if str_eq(state, "reversed") {
                "Hold (reversed)".to_owned()
            } else if str_eq(state, "refunded") {
                "Refund".to_owned()
            } else {
                "Payment".to_owned()
            }
        },
        Some(TxType::Refund) => "Refund".to_owned(),
        None => tx_type.to_owned(),
    }
}

// ------------------------ history lines ------------------------

/// A ledger entry of the user joined with its transaction, as the histories read it.
#[derive(Debug)]
pub struct EntryHistoryRow {
    pub tx_id: String,
    pub tx_type: String,
    pub state: String,
    pub currency: String,
    /// absolute amount of the entry
    pub amount_minor: i64,
    pub direction: String,
    pub created_at: String,
    pub posted_at: String,
    pub metadata_json: Option<String>,
}

/// A hold without ledger entries of the user, as the wallet history reads it.
#[derive(Debug)]
pub struct HoldHistoryRow {
    pub tx_id: String,
    pub tx_type: String,
    pub state: String,
    pub currency: String,
    pub amount_minor: i64,
    pub created_at: String,
    pub posted_at: String,
}

/// The line keeps the fields of the row, with the given signed amount and description.
pub open spec fn line_of_entry(r: TxItem, row: EntryHistoryRow, amount: int, description: Seq<char>) -> bool {
    &&& r.tx_id@ == row.tx_id@
    &&& r.tx_type@ == row.tx_type@
    &&& r.state@ == row.state@
    &&& r.currency@ == row.currency@
    &&& r.amount_minor == amount
    &&& r.created_at@ == row.created_at@
    &&& r.posted_at@ == row.posted_at@
    &&& r.description@ == description
}

/// A wallet-history line of a ledger entry: the amount is signed by the direction
/// (debits negative), and the description follows the type, direction and metadata.
pub fn wallet_entry_line(row: EntryHistoryRow) -> (r: AppResult<TxItem>)
    requires
        EntryDirection::spec_from_db_str(row.direction@) == Ok::<EntryDirection, DomainError>(EntryDirection::Debit)
            ==> row.amount_minor > i64::MIN,
    ensures
        match EntryDirection::spec_from_db_str(row.direction@) {
            Ok(d) => r matches Ok(item) && line_of_entry(
                item,
                row,
                d.spec_apply_sign(row.amount_minor as int),
                wallet_description(row.tx_type@, d, opt_view(row.metadata_json)),
            ),
            Err(e) => r matches Err(re) && re == app_error_of_domain(e),
        },
{
    let dir = match EntryDirection::from_db_str(row.direction.as_str()) {
        Ok(d) => d,
        Err(e) => return Err(AppError::from(e)),
    };
    let signed_amount = dir.apply_sign(row.amount_minor);
    let description = describe_wallet_line(row.tx_type.as_str(), dir, &row.metadata_json);
    Ok(TxItem {
        tx_id: row.tx_id,
        tx_type: row.tx_type,
        state: row.state,
        currency: row.currency,
        amount_minor: signed_amount,
        created_at: row.created_at,
        posted_at: row.posted_at,
        description,
    })
}

/// A per-account history line of a ledger entry.
pub fn account_entry_line(row: EntryHistoryRow) -> (r: AppResult<TxItem>)
    requires
        EntryDirection::spec_from_db_str(row.direction@) == Ok::<EntryDirection, DomainError>(EntryDirection::Debit)
            ==> row.amount_minor > i64::MIN,
    ensures
        match EntryDirection::spec_from_db_str(row.direction@) {
            Ok(d) => r matches Ok(item) && line_of_entry(
                item,
                row,
                d.spec_apply_sign(row.amount_minor as int),
                account_description(row.tx_type@, row.state@, d, opt_view(row.metadata_json)),
            ),
            Err(e) => r matches Err(re) && re == app_error_of_domain(e),
        },
{
    let dir = match EntryDirection::from_db_str(row.direction.as_str()) {
        Ok(d) => d,
        Err(e) => return Err(AppError::from(e)),
    };
    let signed_amount = dir.apply_sign(row.amount_minor);
    let description = describe_account_line(row.tx_type.as_str(), row.state.as_str(), dir, &row.metadata_json);
    Ok(TxItem {
        tx_id: row.tx_id,
        tx_type: row.tx_type,
        state: row.state,
        currency: row.currency,
        amount_minor: signed_amount,
        created_at: row.created_at,
        posted_at: row.posted_at,
        description,
    })
}

/// A wallet-history line of a hold without entries: the held amount counts as negative.
pub fn wallet_hold_line(row: HoldHistoryRow) -> (r: TxItem)
    requires
        row.amount_minor > i64::MIN,
    ensures
        r.tx_id@ == row.tx_id@,
        r.tx_type@ == row.tx_type@,
        r.state@ == row.state@,
        r.currency@ == row.currency@,
        r.amount_minor == -row.amount_minor,
        r.created_at@ == row.created_at@,
        r.posted_at@ == row.posted_at@,
        r.description@ == hold_description(row.state@),
{
    let desc = if str_eq(row.state.as_str(), "authorized") {
        "Hold (authorized)"
    } else if str_eq(row.state.as_str(), "reversed") {
        "Hold (reversed)"
    } else {
        "Hold"
    };
    TxItem {
        tx_id: row.tx_id,
        tx_type: row.tx_type,
        state: row.state,
        currency: row.currency,
        amount_minor: -row.amount_minor,
        created_at: row.created_at,
        posted_at: row.posted_at,
        description: desc.to_owned(),
    }
}

// ------------------------ ordering ------------------------

/// Index of the first line strictly older than `x`, or `sorted.len()`.
pub open spec fn insert_pos(sorted: Seq<TxItem>, x: TxItem) -> int
    decreases sorted.len(),
{
    if sorted.len() == 0 {
        0
    } else if seq_lt(sorted[0].created_at@, x.created_at@) {
        0
    } else {
        1 + insert_pos(sorted.drop_first(), x)
    }
}

/// The lines, newest first by creation time; lines created at the same time keep their order
/// (a stable sort).
pub open spec fn sort_newest_first(s: Seq<TxItem>) -> Seq<TxItem>
    decreases s.len(),
{
    if s.len() == 0 {
        seq![]
    } else {
        let sorted = sort_newest_first(s.drop_last());
        sorted.insert(insert_pos(sorted, s.last()), s.last())
    }
}

proof fn lemma_insert_pos(sorted: Seq<TxItem>, x: TxItem, j: int)
    requires
        0 <= j <= sorted.len(),
        forall|k: int| 0 <= k < j ==> !seq_lt((#[trigger] sorted[k]).created_at@, x.created_at@),
        j < sorted.len() ==> seq_lt(sorted[j].created_at@, x.created_at@),
    ensures
        insert_pos(sorted, x) == j,
    decreases j,
{
    if j > 0 {
        let t = sorted.drop_first();
        assert forall|k: int| 0 <= k < j - 1 implies !seq_lt((#[trigger] t[k]).created_at@, x.created_at@) by {
            assert(t[k] == sorted[k + 1]);
        }
        if j - 1 < t.len() {
            assert(t[j - 1] == sorted[j]);
        }
        lemma_insert_pos(t, x, j - 1);
    }
}

/// `seq_lt` never holds of a text and itself.
pub proof fn lemma_seq_lt_irreflexive(a: Seq<char>)
    ensures
        !seq_lt(a, a),
    decreases a.len(),
{
    if a.len() > 0 {
        lemma_seq_lt_irreflexive(a.drop_first());
    }
}

/// `seq_lt` is transitive.
pub proof fn lemma_seq_lt_transitive(a: Seq<char>, b: Seq<char>, c: Seq<char>)
    requires
        seq_lt(a, b),
        seq_lt(b, c),
    ensures
        seq_lt(a, c),
    decreases a.len(),
{
    if a.len() > 0 && a[0] == b[0] && b[0] == c[0] {
        lemma_seq_lt_transitive(a.drop_first(), b.drop_first(), c.drop_first());
    }
}

/// The lines are newest first: no line is older than one after it.
pub open spec fn newest_first(s: Seq<TxItem>) -> bool {
    forall|i: int, j: int|
        #![trigger s[i], s[j]]
        0 <= i < j < s.len() ==> !seq_lt(s[i].created_at@, s[j].created_at@)
}

proof fn lemma_insert_pos_props(sorted: Seq<TxItem>, x: TxItem)
    ensures
        0 <= insert_pos(sorted, x) <= sorted.len(),
        forall|k: int| 0 <= k < insert_pos(sorted, x) ==> !seq_lt((#[trigger] sorted[k]).created_at@, x.created_at@),
        insert_pos(sorted, x) < sorted.len() ==> seq_lt(sorted[insert_pos(sorted, x)].created_at@, x.created_at@),
    decreases sorted.len(),
{
    if sorted.len() > 0 && !seq_lt(sorted[0].created_at@, x.created_at@) {
        let t = sorted.drop_first();
        lemma_insert_pos_props(t, x);
        assert forall|k: int| 0 <= k < insert_pos(sorted, x) implies !seq_lt(
            (#[trigger] sorted[k]).created_at@,
            x.created_at@,
        ) by {
            if k > 0 {
                assert(sorted[k] == t[k - 1]);
            }
        }
    }
}

/// Law: the history order puts the lines newest first, keeps lines of the same time in the
/// order given, and loses or adds no line: the result holds exactly the given lines.
/// Any prefix of it (the shown lines) is newest first too.
pub proof fn lemma_history_order(s: Seq<TxItem>, n: int)
    requires
        0 <= n <= s.len(),
    ensures
        newest_first(sort_newest_first(s)),
        sort_newest_first(s).to_multiset() == s.to_multiset(),
        sort_newest_first(s).len() == s.len(),
        newest_first(sort_newest_first(s).take(n)),
    decreases s.len(),
{
    broadcast use vstd::seq_lib::to_multiset_insert, vstd::seq_lib::to_multiset_build;
    if s.len() > 0 {
        let t = s.drop_last();
        let x = s.last();
        lemma_history_order(t, 0);
        let sorted = sort_newest_first(t);
        let p = insert_pos(sorted, x);
        lemma_insert_pos_props(sorted, x);
        let r = sorted.insert(p, x);
        assert(r == sort_newest_first(s));
        assert forall|i: int, j: int| 0 <= i < j < r.len() implies !seq_lt(
            #[trigger] r[i].created_at@,
            #[trigger] r[j].created_at@,
        ) by {
            if j < p {
                assert(r[i] == sorted[i] && r[j] == sorted[j]);
            } else if j == p {
                assert(r[i] == sorted[i]);
            } else if i < p {
                assert(r[i] == sorted[i] && r[j] == sorted[j - 1]);
            } else if i == p {
                assert(r[j] == sorted[j - 1]);
                if seq_lt(x.created_at@, sorted[j - 1].created_at@) {
                    lemma_seq_lt_transitive(sorted[p].created_at@, x.created_at@, sorted[j - 1].created_at@);
                    if j - 1 == p {
                        lemma_seq_lt_irreflexive(sorted[p].created_at@);
                    } else {
                        assert(!seq_lt(sorted[p].created_at@, sorted[j - 1].created_at@));
                    }
                }
            } else {
                assert(r[i] == sorted[i - 1] && r[j] == sorted[j - 1]);
            }
        }
        assert(s =~= t.push(x));
        assert(r.to_multiset() == sorted.to_multiset().insert(x));
        assert(t.push(x).to_multiset() == t.to_multiset().insert(x));
    } else {
        assert(s =~= Seq::<TxItem>::empty());
        assert(sort_newest_first(s) =~= Seq::<TxItem>::empty());
    }
    let r = sort_newest_first(s);
    let q = r.take(n);
    assert forall|i: int, j: int| 0 <= i < j < q.len() implies !seq_lt(
        #[trigger] q[i].created_at@,
        #[trigger] q[j].created_at@,
    ) by {
        assert(q[i] == r[i] && q[j] == r[j]);
    }
}

/// Lines of a wallet history: the entry lines and hold lines together, newest first,
/// at most `limit` of them.
pub fn merge_history(items: Vec<TxItem>, holds: Vec<TxItem>, limit: u32) -> (r: Vec<TxItem>)
    ensures
        r@ == sort_newest_first(items@ + holds@).take(
            if limit as int <= (items@ + holds@).len() {
                limit as int
            } else {
                (items@ + holds@).len() as int
            },
        ),
{
    let ghost all0 = items@ + holds@;
    let mut all = items;
    let mut rest = holds;
    all.append(&mut rest);
    assert(all@ == all0);
    let n = all.len();
    let mut sorted: Vec<TxItem> = Vec::new();
    let mut k: usize = 0;
    assert(all0.subrange(0, 0) =~= Seq::<TxItem>::empty());
    assert(all0.subrange(0, n as int) =~= all0);
    while all.len() > 0
        invariant
            n == all0.len(),
            k + all@.len() == n,
            all@ == all0.subrange(k as int, n as int),
            sorted@ == sort_newest_first(all0.subrange(0, k as int)),
            sorted@.len() == k,
        decreases all@.len(),
    {
        let x = all.remove(0);
        let m = sorted.len();
        let mut j: usize = 0;
        while j < m && !str_lt(sorted[j].created_at.as_str(), x.created_at.as_str())
            invariant
                m == sorted@.len(),
                j <= m,
                forall|q: int| 0 <= q < j ==> !seq_lt((#[trigger] sorted@[q]).created_at@, x.created_at@),
            decreases m - j,
        {
            j = j + 1;
        }
        proof {
            lemma_insert_pos(sorted@, x, j as int);
            let s = all0.subrange(0, k + 1);
            assert(s.drop_last() =~= all0.subrange(0, k as int));
            assert(s.last() == x);
        }
        sorted.insert(j, x);
        k = k + 1;
        proof {
            assert(all@ =~= all0.subrange(k as int, n as int));
        }
    }
    let lim = limit as usize;
    sorted.truncate(lim);
    sorted
}

/// The number of lines a wallet history shows: 50 unless asked, never more than 200.
pub fn wallet_history_limit(limit: Option<u32>) -> (r: u32)
    ensures
        r == match limit {
            Some(l) => if l < 200 {
                l
            } else {
                200
            },
            None => 50,
        },
{
    let l = match limit {
        Some(l) => l,
        None => 50,
    };
    if l < 200 {
        l
    } else {
        200
    }
}

/// The number of lines a per-account history shows: 100 unless asked.
pub fn account_history_requested_limit(limit: Option<u32>) -> (r: u32)
    ensures
        r == match limit {
            Some(l) => l,
            None => 100,
        },
{
    match limit {
        Some(l) => l,
        None => 100,
    }
}

/// The limit of a per-account history, clamped to 1..=200.
pub fn clamp_account_history_limit(limit: u32) -> (r: u32)
    ensures
        r == if limit > 200 {
            200
        } else if limit < 1 {
            1
        } else {
            limit
        },
{
    let l = if limit < 200 {
        limit
    } else {
        200
    };
    if l > 1 {
        l
    } else {
        1
    }
}


/// Law: a transfer line of the per-account history reads as the wallet history reads it: a
/// debit (money going out) names the receiver, "Transfer to <to_user_id>", and a credit
/// (money coming in) names the sender, "Transfer from <from_user_id>", whatever the state.
pub proof fn lemma_transfer_lines_name_the_other_party(
    state: Seq<char>,
    meta: Option<Seq<char>>,
    to: Seq<char>,
    from: Seq<char>,
)
    ensures
        meta_field(meta, "to_user_id"@) == Some(to) ==> {
            &&& account_description("transfer"@, state, EntryDirection::Debit, meta) == "Transfer to "@ + to
            &&& wallet_description("transfer"@, EntryDirection::Debit, meta) == "Transfer to "@ + to
        },
        meta_field(meta, "from_user_id"@) == Some(from) ==> {
            &&& account_description("transfer"@, state, EntryDirection::Credit, meta) == "Transfer from "@ + from
            &&& wallet_description("transfer"@, EntryDirection::Credit, meta) == "Transfer from "@ + from
        },
        account_description("transfer"@, state, EntryDirection::Debit, meta) == wallet_description(
            "transfer"@,
            EntryDirection::Debit,
            meta,
        ),
{
    reveal_strlit("transfer");
    reveal_strlit("topup");
    assert("transfer"@ != "topup"@) by {
        assert("transfer"@[1] != "topup"@[1]);
    }
    assert(TxType::spec_from_db_str_lossy("transfer"@) == Some(TxType::Transfer)) by {
        crate::domain::lemma_tx_type_text_roundtrip(TxType::Transfer);
    }
}

/// Law: a hold is described by its own state, the same way in the wallet history (a hold
/// without entries) as in the per-account history (a payment): an authorized hold as
/// "Hold (authorized)", a cancelled one as "Hold (reversed)", so the two never read alike.
pub proof fn lemma_hold_lines_tell_states_apart(dir: EntryDirection, meta: Option<Seq<char>>)
    ensures
        hold_description("authorized"@) == "Hold (authorized)"@,
        hold_description("reversed"@) == "Hold (reversed)"@,
        hold_description("reversed"@) != hold_description("authorized"@),
        account_description("payment"@, "authorized"@, dir, meta) == hold_description("authorized"@),
        account_description("payment"@, "reversed"@, dir, meta) == hold_description("reversed"@),
{
    reveal_strlit("authorized");
    reveal_strlit("reversed");
    reveal_strlit("posted");
    reveal_strlit("Hold (authorized)");
    reveal_strlit("Hold (reversed)");
    assert("authorized"@ != "reversed"@) by {
        assert("authorized"@[0] != "reversed"@[0]);
    }
    assert("reversed"@ != "posted"@) by {
        assert("reversed"@[0] != "posted"@[0]);
    }
    assert("Hold (reversed)"@ != "Hold (authorized)"@) by {
        assert("Hold (reversed)"@[6] != "Hold (authorized)"@[6]);
    }
    assert(TxType::spec_from_db_str_lossy("payment"@) == Some(TxType::Payment)) by {
        crate::domain::lemma_tx_type_text_roundtrip(TxType::Payment);
    }
}

} // verus!
