//! Normalization of ledger execution outcomes into one stable response
//! shape, including the best-effort scan of unstructured failure text.

use vstd::prelude::*;

use crate::models::{CallResult, MethodCallResponse};
use crate::text::{
    contains_seq, format_tgas, is_first_match, lemma_first_match_unique, matches_at, tgas_rep,
    contains_pattern, find_first,
};
use vstd::utf8::{decode_utf8, valid_utf8};

verus! {

/// Final status of an executed transaction, as plain data: the returned
/// value bytes on success, the failure's textual form on failure, or one of
/// the two not-yet-final markers.
pub enum ExecStatus {
    SuccessValue { value: Vec<u8> },
    Failure { text: String },
    NotStarted,
    Started,
}

/// One receipt's outcome: its id, status label, emitted logs and gas.
pub struct ReceiptOutcomeView {
    pub id: String,
    pub status_text: String,
    pub logs: Vec<String>,
    pub gas_burnt: u64,
}

/// Everything a committed transaction came back with, as plain data.
pub struct CommitOutcome {
    pub status: ExecStatus,
    pub transaction_hash: String,
    pub tx_logs: Vec<String>,
    pub tx_gas_burnt: u64,
    pub tx_block_hash: Vec<u8>,
    pub receipts: Vec<ReceiptOutcomeView>,
}

/// Best-effort structured form of an on-chain failure: either an action
/// failure with an extracted inner message (and the action index when the
/// text names one), or the failure text kept raw.
pub enum ChainFailure {
    Action { index: Option<u8>, message: String },
    Raw { text: String },
}

/// The failure text holds a recognizable action-error pattern: it mentions
/// an action error, an inner execution error opens in it, and the quote
/// closes somewhere after.
pub open spec fn has_scrapeable_failure(t: Seq<char>) -> bool {
    &&& contains_seq(t, "ActionError"@)
    &&& exists|i: int|
        is_first_match(t, "ExecutionError(\""@, i) && contains_seq(
            #[trigger] t.subrange(i + "ExecutionError(\""@.len(), t.len() as int),
            "\")"@,
        )
}

/// The action index read from the failure text, when the text names one of
/// the two indices this scan recognizes.
pub open spec fn spec_failure_index(t: Seq<char>) -> Option<u8> {
    if contains_seq(t, "index: Some(0)"@) {
        Some(0u8)
    } else if contains_seq(t, "index: Some(1)"@) {
        Some(1u8)
    } else {
        None
    }
}

/// The extracted message is the text between the first inner-error opening
/// and the first closing quote after it.
pub open spec fn is_scraped_message(t: Seq<char>, message: Seq<char>) -> bool {
    exists|i: int, k: int|
        #![trigger is_first_match(t, "ExecutionError(\""@, i),
            is_first_match(t.subrange(i + "ExecutionError(\""@.len(), t.len() as int), "\")"@, k)]
        {
            let suffix = t.subrange(i + "ExecutionError(\""@.len(), t.len() as int);
            &&& is_first_match(t, "ExecutionError(\""@, i)
            &&& is_first_match(suffix, "\")"@, k)
            &&& message == suffix.subrange(0, k)
        }
}

/// Scans a failure's textual form. When a recognizable inner-error pattern
/// is present, the inner message (and action index, if named) is extracted;
/// otherwise the text is kept raw. The scan is best-effort, never
/// authoritative: the raw text always remains available to callers.
pub fn scrape_failure(text: &str) -> (r: ChainFailure)
    ensures
        has_scrapeable_failure(text@) ==> (r matches ChainFailure::Action { index, message }
            && is_scraped_message(text@, message@) && index == spec_failure_index(text@)),
        !has_scrapeable_failure(text@) ==> (r matches ChainFailure::Raw { text: raw } && raw@
            == text@),
{
    if !contains_pattern(text, "ActionError") {
        return ChainFailure::Raw { text: text.to_owned() };
    }
    let opening = "ExecutionError(\"";
    match find_first(text, opening) {
        None => {
            assert(!has_scrapeable_failure(text@));
            ChainFailure::Raw { text: text.to_owned() }
        },
        Some(i) => {
            let text_len = text.unicode_len();
            let ms = i + opening.unicode_len();
            let suffix = text.substring_char(ms, text_len);
            match find_first(suffix, "\")") {
                None => {
                    proof {
                        if has_scrapeable_failure(text@) {
                            let i2 = choose|i2: int|
                                is_first_match(text@, "ExecutionError(\""@, i2) && contains_seq(
                                    text@.subrange(
                                        i2 + "ExecutionError(\""@.len(),
                                        text@.len() as int,
                                    ),
                                    "\")"@,
                                );
                            lemma_first_match_unique(text@, "ExecutionError(\""@, i as int, i2);
                        }
                    }
                    ChainFailure::Raw { text: text.to_owned() }
                },
                Some(k) => {
                    let message = suffix.substring_char(0, k).to_owned();
                    let index: Option<u8> = if contains_pattern(text, "index: Some(0)") {
                        Some(0u8)
                    } else if contains_pattern(text, "index: Some(1)") {
                        Some(1u8)
                    } else {
                        None
                    };
                    proof {
                        let open_pat = "ExecutionError(\""@;
                        let close_pat = "\")"@;
                        let tail = text@.subrange(i + open_pat.len(), text@.len() as int);
                        assert(suffix@ == tail);
                        assert(is_first_match(text@, open_pat, i as int));
                        assert(is_first_match(tail, close_pat, k as int));
                        assert(message@ == tail.subrange(0, k as int));
                        assert(is_scraped_message(text@, message@));
                        assert(contains_seq(tail, close_pat)) by {
                            assert(matches_at(tail, close_pat, k as int));
                        }
                        assert(has_scrapeable_failure(text@));
                    }
                    ChainFailure::Action { index, message }
                },
            }
        },
    }
}

/// Relies on serde_json::from_str::<serde_json::Value>: it succeeds exactly
/// on well-formed JSON text.
#[verifier::external_body]
pub fn json_parses(s: &str) -> (r: bool)
    ensures
        r == is_json_text(s@),
{
    serde_json::from_str::<serde_json::Value>(s).is_ok()
}

/// Whether the text is well-formed JSON, as serde_json's parser accepts it.
pub uninterp spec fn is_json_text(s: Seq<char>) -> bool;

/// Standard base64 text of a byte string, with padding.
pub uninterp spec fn base64_text(b: Seq<u8>) -> Seq<char>;

/// Relies on base64's STANDARD engine encode: the text depends on the bytes
/// alone, four characters for every started group of three bytes.
#[verifier::external_body]
pub fn to_base64(bytes: &Vec<u8>) -> (r: String)
    ensures
        r@ == base64_text(bytes@),
        r@.len() == 4 * ((bytes@.len() + 2) / 3),
{
    <base64::engine::general_purpose::GeneralPurpose as base64::Engine>::encode(
        &base64::engine::general_purpose::STANDARD,
        bytes,
    )
}

/// Relies on String::from_utf8: it succeeds exactly on valid UTF-8 and
/// returns the decoded text.
#[verifier::external_body]
pub fn utf8_to_text(bytes: Vec<u8>) -> (r: Option<String>)
    ensures
        r is Some <==> valid_utf8(bytes@),
        r matches Some(s) ==> s@ == decode_utf8(bytes@),
{
    String::from_utf8(bytes).ok()
}

/// All receipt logs joined, in receipt order.
pub open spec fn receipt_logs_seq(receipts: Seq<ReceiptOutcomeView>) -> Seq<String>
    decreases receipts.len(),
{
    if receipts.len() == 0 {
        Seq::empty()
    } else {
        receipt_logs_seq(receipts.drop_last()) + receipts.last().logs@
    }
}

/// The merged log sequence of an outcome: the transaction outcome's own
/// logs first, then every receipt outcome's, in receipt order.
pub open spec fn merged_logs_seq(tx_logs: Seq<String>, receipts: Seq<ReceiptOutcomeView>)
    -> Seq<String> {
    tx_logs + receipt_logs_seq(receipts)
}

/// Collects the transaction outcome's logs and every receipt outcome's,
/// keeping receipt order.
pub fn collect_merged_logs(tx_logs: &Vec<String>, receipts: &Vec<ReceiptOutcomeView>) -> (r: Vec<
    String,
>)
    ensures
        r@ == merged_logs_seq(tx_logs@, receipts@),
{
    let mut r = tx_logs.clone();
    let combined = collect_receipt_logs(receipts);
    let m = combined.len();
    let mut k: usize = 0;
    while k < m
        invariant
            k <= m,
            m == combined@.len(),
            combined@ == receipt_logs_seq(receipts@),
            r@ == tx_logs@ + combined@.subrange(0, k as int),
        decreases m - k,
    {
        r.push(combined[k].clone());
        proof {
            assert(combined@.subrange(0, k + 1) =~= combined@.subrange(0, k as int).push(
                combined@[k as int],
            ));
            assert(r@ =~= tx_logs@ + combined@.subrange(0, k + 1));
        }
        k = k + 1;
    }
    proof {
        assert(combined@.subrange(0, m as int) =~= combined@);
        assert(r@ =~= merged_logs_seq(tx_logs@, receipts@));
    }
    r
}

/// Collects the logs of every receipt outcome, keeping receipt order.
pub fn collect_receipt_logs(receipts: &Vec<ReceiptOutcomeView>) -> (r: Vec<String>)
    ensures
        r@ == receipt_logs_seq(receipts@),
{
    let mut r: Vec<String> = Vec::new();
    let n = receipts.len();
    let mut i: usize = 0;
    while i < n
        invariant
            i <= n,
            n == receipts@.len(),
            r@ == receipt_logs_seq(receipts@.subrange(0, i as int)),
        decreases n - i,
    {
        let entry = &receipts[i];
        let m = entry.logs.len();
        let mut k: usize = 0;
        while k < m
            invariant
                k <= m,
                i < n,
                n == receipts@.len(),
                m == receipts@[i as int].logs@.len(),
                r@ == receipt_logs_seq(receipts@.subrange(0, i as int)) + receipts@[
                    i as int
                ].logs@.subrange(0, k as int),
            decreases m - k,
        {
            r.push(receipts[i].logs[k].clone());
            proof {
                assert(receipts@[i as int].logs@.subrange(0, k + 1) =~= receipts@[
                    i as int
                ].logs@.subrange(0, k as int).push(receipts@[i as int].logs@[k as int]));
                assert(r@ =~= receipt_logs_seq(receipts@.subrange(0, i as int)) + receipts@[
                    i as int
                ].logs@.subrange(0, k + 1));
            }
            k = k + 1;
        }
        proof {
            assert(receipts@.subrange(0, i + 1).drop_last() =~= receipts@.subrange(0, i as int));
            assert(receipts@.subrange(0, i + 1).last() == receipts@[i as int]);
            assert(receipts@[i as int].logs@.subrange(0, m as int) =~= receipts@[i as int].logs@);
            assert(r@ =~= receipt_logs_seq(receipts@.subrange(0, i + 1)));
        }
        i = i + 1;
    }
    proof {
        assert(receipts@.subrange(0, n as int) =~= receipts@);
    }
    r
}

/// What the normalized response must say of a committed outcome: success
/// exactly on the non-failure statuses, the returned value decoded and
/// classified, failures scanned, and gas and hash always echoed.
pub open spec fn normalized_commit_ok(o: CommitOutcome, m: MethodCallResponse) -> bool {
    &&& m.transaction_hash matches Some(h) && h@ == o.transaction_hash@
    &&& m.logs@ == merged_logs_seq(o.tx_logs@, o.receipts@)
    &&& m.gas_used matches Some(g) && g@ == tgas_rep(o.tx_gas_burnt as nat)
    &&& m.error is None
    &&& match o.status {
        ExecStatus::SuccessValue { value } => {
            &&& m.success == true
            &&& if value@.len() == 0 {
                m.result matches Some(CallResult::Empty)
            } else {
                m.result matches Some(CallResult::Value { text, json }) && text@ == decode_utf8(
                    value@,
                ) && json == is_json_text(decode_utf8(value@))
            }
        },
        ExecStatus::Failure { text } => {
            &&& m.success == false
            &&& m.result matches Some(CallResult::Failure { failure }) && (
            has_scrapeable_failure(text@) ==> (failure matches ChainFailure::Action {
                index,
                message,
            } && is_scraped_message(text@, message@) && index == spec_failure_index(text@))) && (
            !has_scrapeable_failure(text@) ==> (failure matches ChainFailure::Raw { text: raw }
                && raw@ == text@))
        },
        ExecStatus::NotStarted => {
            &&& m.success == true
            &&& m.result matches Some(CallResult::Pending { status }) && status@ == "NotStarted"@
        },
        ExecStatus::Started => {
            &&& m.success == true
            &&& m.result matches Some(CallResult::Pending { status }) && status@ == "Started"@
        },
    }
}

/// Normalizes a committed transaction outcome into the stable response
/// shape. Fails only when a returned value is not valid UTF-8, exactly as
/// the returned bytes require text form before JSON classification.
pub fn normalize_commit(o: CommitOutcome) -> (r: Result<MethodCallResponse, ()>)
    ensures
        (r is Err <==> (o.status matches ExecStatus::SuccessValue { value } && value@.len() > 0
            && !valid_utf8(value@))),
        r matches Ok(m) ==> normalized_commit_ok(o, m),
{
    let logs = collect_merged_logs(&o.tx_logs, &o.receipts);
    let gas_used = Some(format_tgas(o.tx_gas_burnt));
    let transaction_hash = Some(o.transaction_hash);
    match o.status {
        ExecStatus::SuccessValue { value } => {
            if value.len() == 0 {
                Ok(
                    MethodCallResponse {
                        success: true,
                        result: Some(CallResult::Empty),
                        transaction_hash,
                        logs,
                        gas_used,
                        error: None,
                    },
                )
            } else {
                match utf8_to_text(value) {
                    None => Err(()),
                    Some(text) => {
                        let json = json_parses(text.as_str());
                        Ok(
                            MethodCallResponse {
                                success: true,
                                result: Some(CallResult::Value { text, json }),
                                transaction_hash,
                                logs,
                                gas_used,
                                error: None,
                            },
                        )
                    },
                }
            }
        },
        ExecStatus::Failure { text } => {
            let failure = scrape_failure(text.as_str());
            Ok(
                MethodCallResponse {
                    success: false,
                    result: Some(CallResult::Failure { failure }),
                    transaction_hash,
                    logs,
                    gas_used,
                    error: None,
                },
            )
        },
        ExecStatus::NotStarted => Ok(
            MethodCallResponse {
                success: true,
                result: Some(CallResult::Pending { status: "NotStarted".to_owned() }),
                transaction_hash,
                logs,
                gas_used,
                error: None,
            },
        ),
        ExecStatus::Started => Ok(
            MethodCallResponse {
                success: true,
                result: Some(CallResult::Pending { status: "Started".to_owned() }),
                transaction_hash,
                logs,
                gas_used,
                error: None,
            },
        ),
    }
}

/// The failing response when the gateway itself rejected the broadcast:
/// no hash, no logs, no gas, and the rejection message behind a fixed
/// prefix.
pub fn broadcast_rejection(message: &str) -> (r: MethodCallResponse)
    ensures
        r.success == false,
        r.result is None,
        r.transaction_hash is None,
        r.logs@.len() == 0,
        r.gas_used is None,
        r.error matches Some(e) && e@ == "Transaction failed: "@ + message@,
{
    let mut text = "Transaction failed: ".to_owned();
    text.append(message);
    MethodCallResponse {
        success: false,
        result: None,
        transaction_hash: None,
        logs: Vec::new(),
        gas_used: None,
        error: Some(text),
    }
}

} // verus!
