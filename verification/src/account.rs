//! Account identifiers: validation of ledger account names, deterministic
//! derivation of subaccount names from caller identifiers and a timestamp,
//! and the guarantee that distinct timestamps give distinct subaccounts.

use vstd::prelude::*;

use crate::text::{dec_rep, lemma_dec_rep_injective, lemma_dec_rep_val};

verus! {

/// Lower-case letter or digit: the characters an account name part is made of.
pub open spec fn is_name_char(c: char) -> bool {
    (97 <= c as u32 && c as u32 <= 122) || (48 <= c as u32 && c as u32 <= 57)
}

/// Separator characters allowed between account name parts.
pub open spec fn is_sep_char(c: char) -> bool {
    c == '-' || c == '_' || c == '.'
}

/// A well-formed ledger account identifier: 2 to 64 characters, each a
/// lower-case letter, digit or separator, starting and ending with a letter
/// or digit, and never two separators in a row.
pub open spec fn valid_account_seq(s: Seq<char>) -> bool {
    &&& 2 <= s.len() <= 64
    &&& forall|i: int| 0 <= i < s.len() ==> is_name_char(#[trigger] s[i]) || is_sep_char(s[i])
    &&& is_name_char(s[0])
    &&& is_name_char(s[s.len() - 1])
    &&& forall|i: int| 0 <= i < s.len() - 1 ==> !(is_sep_char(#[trigger] s[i]) && is_sep_char(
        s[i + 1],
    ))
}

/// Whether the text is a well-formed ledger account identifier.
pub fn validate_account_text(s: &str) -> (r: bool)
    ensures
        r == valid_account_seq(s@),
{
    let n = s.unicode_len();
    if n < 2 || n > 64 {
        return false;
    }
    let mut i: usize = 0;
    let mut prev_sep = false;
    while i < n
        invariant
            i <= n,
            n == s@.len(),
            2 <= n <= 64,
            forall|j: int| 0 <= j < i ==> is_name_char(#[trigger] s@[j]) || is_sep_char(s@[j]),
            i > 0 ==> is_name_char(s@[0]),
            i > 0 ==> prev_sep == is_sep_char(s@[i - 1]),
            i == 0 ==> !prev_sep,
            forall|j: int| 0 <= j < i - 1 ==> !(is_sep_char(#[trigger] s@[j]) && is_sep_char(
                s@[j + 1],
            )),
        decreases n - i,
    {
        let c = s.get_char(i);
        let u = c as u32;
        let name = (u >= 97 && u <= 122) || (u >= 48 && u <= 57);
        let sep = c == '-' || c == '_' || c == '.';
        if !name && !sep {
            return false;
        }
        if sep && (i == 0 || prev_sep) {
            return false;
        }
        prev_sep = sep;
        i = i + 1;
    }
    if prev_sep {
        return false;
    }
    true
}

/// A validated account identifier; the text can no longer change once parsed.
pub struct AccountId {
    text: String,
}

impl View for AccountId {
    type V = Seq<char>;

    closed spec fn view(&self) -> Seq<char> {
        self.text@
    }
}

impl AccountId {
    /// The identifier is well formed per the ledger's account naming rules.
    pub open spec fn wf(&self) -> bool {
        valid_account_seq(self@)
    }

    /// Parses text into an account identifier; malformed input is rejected,
    /// never coerced.
    pub fn parse(s: &str) -> (r: Option<AccountId>)
        ensures
            r matches Some(a) ==> a@ == s@ && a.wf(),
            r is Some <==> valid_account_seq(s@),
    {
        if validate_account_text(s) {
            Some(AccountId { text: s.to_owned() })
        } else {
            None
        }
    }

    /// The identifier's text.
    pub fn as_text(&self) -> (r: &str)
        ensures
            r@ == self@,
    {
        self.text.as_str()
    }

    /// An owned copy of the identifier's text.
    pub fn to_text(&self) -> (r: String)
        ensures
            r@ == self@,
    {
        self.text.clone()
    }

    /// A copy of the identifier.
    pub fn duplicate(&self) -> (r: AccountId)
        ensures
            r@ == self@,
    {
        AccountId { text: self.text.clone() }
    }
}

/// The first six characters of a caller-supplied identifier, or all of it
/// when it is shorter.
pub open spec fn slug6(s: Seq<char>) -> Seq<char> {
    if s.len() <= 6 {
        s
    } else {
        s.subrange(0, 6)
    }
}

/// The contract name derived from caller identifiers and the creation
/// timestamp: first six characters of each identifier, then the decimal
/// timestamp, joined with dashes.
pub open spec fn contract_name_seq(user: Seq<char>, project: Seq<char>, ts: nat) -> Seq<char> {
    slug6(user) + seq!['-'] + slug6(project) + seq!['-'] + dec_rep(ts)
}

/// The derived subaccount identifier: the contract name composed from the
/// caller identifiers and the timestamp, a dot, then the parent account.
pub open spec fn subaccount_seq(
    user: Seq<char>,
    project: Seq<char>,
    ts: nat,
    parent: Seq<char>,
) -> Seq<char> {
    contract_name_seq(user, project, ts) + seq!['.'] + parent
}

fn take6(s: &str) -> (r: String)
    ensures
        r@ == slug6(s@),
{
    let n = s.unicode_len();
    if n <= 6 {
        s.to_owned()
    } else {
        s.substring_char(0, 6).to_owned()
    }
}

/// The contract name derived from caller identifiers and a creation
/// timestamp: the first six characters of each identifier and the decimal
/// timestamp, joined with dashes.
pub fn derive_contract_name(user_id: &str, project_id: &str, timestamp: u64) -> (r: String)
    ensures
        r@ == contract_name_seq(user_id@, project_id@, timestamp as nat),
{
    let mut r = take6(user_id);
    r.append("-");
    let p = take6(project_id);
    r.append(p.as_str());
    r.append("-");
    let t = crate::text::u64_to_decimal(timestamp);
    r.append(t.as_str());
    proof {
        reveal_strlit("-");
        assert(r@ =~= contract_name_seq(user_id@, project_id@, timestamp as nat));
    }
    r
}

/// The full subaccount text `<contract name>.<parent>`.
pub fn compose_subaccount_text(user_id: &str, project_id: &str, timestamp: u64, parent: &AccountId)
    -> (r: String)
    ensures
        r@ == subaccount_seq(user_id@, project_id@, timestamp as nat, parent@),
{
    let mut r = derive_contract_name(user_id, project_id, timestamp);
    r.append(".");
    r.append(parent.as_text());
    proof {
        reveal_strlit(".");
        assert(r@ =~= subaccount_seq(user_id@, project_id@, timestamp as nat, parent@));
    }
    r
}

/// Derivation from the same caller identifiers at two different timestamps
/// names two different subaccounts: the timestamp makes the name unique.
pub proof fn lemma_subaccount_ids_distinct(
    user: Seq<char>,
    project: Seq<char>,
    parent: Seq<char>,
    ts1: nat,
    ts2: nat,
)
    requires
        ts1 != ts2,
    ensures
        subaccount_seq(user, project, ts1, parent) != subaccount_seq(user, project, ts2, parent),
{
    let a = subaccount_seq(user, project, ts1, parent);
    let b = subaccount_seq(user, project, ts2, parent);
    if a == b {
        let pre = slug6(user) + seq!['-'] + slug6(project) + seq!['-'];
        let d1 = dec_rep(ts1);
        let d2 = dec_rep(ts2);
        lemma_dec_rep_val(ts1);
        lemma_dec_rep_val(ts2);
        assert(a.len() == pre.len() + d1.len() + 1 + parent.len());
        assert(b.len() == pre.len() + d2.len() + 1 + parent.len());
        assert(d1.len() == d2.len());
        assert(d1 =~= a.subrange(pre.len() as int, (pre.len() + d1.len()) as int));
        assert(d2 =~= b.subrange(pre.len() as int, (pre.len() + d2.len()) as int));
        lemma_dec_rep_injective(ts1, ts2);
        assert(false);
    }
}

} // verus!
