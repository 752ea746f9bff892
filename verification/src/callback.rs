//! Reading the callback that the browser sends back: from the request's
//! target to a [`TaskSyncData`].

use vstd::prelude::*;
use vstd::string::StringExecFns;
use crate::error::SyncError;
use crate::sync_data::{TaskSyncData, TaskSyncView, text_view};

verus! {

/// The decoded pairs of a query, each a key and its value.
pub type QueryPairs = Seq<(Seq<char>, Seq<char>)>;

/// The value of the last pair of `pairs` whose key is `key`, if there is one.
pub open spec fn spec_last_value(pairs: QueryPairs, key: Seq<char>) -> Option<Seq<char>>
    decreases pairs.len(),
{
    if pairs.len() == 0 {
        None
    } else if pairs.last().0 == key {
        Some(pairs.last().1)
    } else {
        spec_last_value(pairs.drop_last(), key)
    }
}

/// Looks `key` up in `pairs`; where it occurs more than once, the last
/// occurrence counts.
pub fn last_value(pairs: &Vec<(String, String)>, key: &str) -> (found: Option<String>)
    ensures
        text_view(found) == spec_last_value(pairs.deep_view(), key@),
{
    let wanted = String::from_str(key);
    let mut i: usize = pairs.len();
    assert(pairs.deep_view().take(i as int) =~= pairs.deep_view());
    while i > 0
        invariant
            i <= pairs.len(),
            wanted@ == key@,
            spec_last_value(pairs.deep_view(), key@) == spec_last_value(
                pairs.deep_view().take(i as int),
                key@,
            ),
        decreases i,
    {
        i = i - 1;
        proof {
            let seen = pairs.deep_view().take(i + 1);
            assert(seen.last() == (pairs[i as int].0@, pairs[i as int].1@));
            assert(seen.drop_last() =~= pairs.deep_view().take(i as int));
        }
        if pairs[i].0 == wanted {
            return Some(pairs[i].1.clone());
        }
    }
    None
}

/// The text of `value`, or the empty text where there is none.
pub open spec fn spec_text_or_empty(value: Option<Seq<char>>) -> Seq<char> {
    match value {
        Some(text) => text,
        None => Seq::empty(),
    }
}

/// The context that a callback with the decoded query `pairs` delivers when
/// it is received at time `now`.
///
/// Each recognised key fills its field and every other key is passed over.
/// The five account, product and board fields are empty where their key is
/// missing; the optional fields are present exactly where their key is. The
/// time of synchronisation is `now`, whatever the query holds.
pub open spec fn spec_context_from_pairs(pairs: QueryPairs, now: u64) -> TaskSyncView {
    TaskSyncView {
        account_id: spec_text_or_empty(spec_last_value(pairs, "account_id"@)),
        account_name: spec_text_or_empty(spec_last_value(pairs, "account_name"@)),
        product_id: spec_text_or_empty(spec_last_value(pairs, "product_id"@)),
        product_name: spec_text_or_empty(spec_last_value(pairs, "product_name"@)),
        board_id: spec_text_or_empty(spec_last_value(pairs, "board_id"@)),
        big_bet: spec_last_value(pairs, "board_name"@),
        big_bet_description: spec_last_value(pairs, "board_description"@),
        task_id: spec_last_value(pairs, "task_id"@),
        work_item: spec_last_value(pairs, "task_name"@),
        work_item_description: spec_last_value(pairs, "task_description"@),
        synced_at: Some(now),
    }
}

fn value_or_empty(pairs: &Vec<(String, String)>, key: &str) -> (text: String)
    ensures
        text@ == spec_text_or_empty(spec_last_value(pairs.deep_view(), key@)),
{
    match last_value(pairs, key) {
        Some(text) => text,
        None => String::new(),
    }
}

/// Builds the context that the decoded query `pairs` delivers, stamped with
/// the time `now` in seconds since the Unix epoch.
pub fn context_from_pairs(pairs: &Vec<(String, String)>, now: u64) -> (context: TaskSyncData)
    ensures
        context@ == spec_context_from_pairs(pairs.deep_view(), now),
{
    TaskSyncData {
        account_id: value_or_empty(pairs, "account_id"),
        account_name: value_or_empty(pairs, "account_name"),
        product_id: value_or_empty(pairs, "product_id"),
        product_name: value_or_empty(pairs, "product_name"),
        board_id: value_or_empty(pairs, "board_id"),
        big_bet: last_value(pairs, "board_name"),
        big_bet_description: last_value(pairs, "board_description"),
        task_id: last_value(pairs, "task_id"),
        work_item: last_value(pairs, "task_name"),
        work_item_description: last_value(pairs, "task_description"),
        synced_at: Some(now),
    }
}

/// `url::ParseError`, the reason for which `url::Url::parse` turns an input
/// down. It is carried, never looked into.
#[verifier::external_type_specification]
#[verifier::external_body]
pub struct ExUrlParseError(url::ParseError);

/// The decoded query pairs of the absolute URL `input`, in the order in which
/// they stand in it: what `url::Url::parse` followed by `Url::query_pairs`
/// yields. `None` where `Url::parse` turns `input` down.
pub uninterp spec fn url_query_pairs(input: Seq<char>) -> Option<Seq<(Seq<char>, Seq<char>)>>;

/// Parses `input` with `url::Url::parse` and hands out the pairs of
/// `Url::query_pairs`, each key and value as an owned string.
///
/// Trusted: the parse fails exactly where [`url_query_pairs`] is `None`, and
/// the pairs are those that it names.
#[verifier::external_body]
fn parse_query_pairs(input: &str) -> (parsed: Result<Vec<(String, String)>, url::ParseError>)
    ensures
        parsed is Ok <==> url_query_pairs(input@) is Some,
        parsed is Ok ==> parsed->Ok_0.deep_view() == url_query_pairs(input@)->Some_0,
{
    let url = url::Url::parse(input)?;
    Ok(url.query_pairs().into_owned().collect())
}

/// The URL that a request target is read as: the target behind a fixed base,
/// whose only purpose is to make the target absolute.
pub open spec fn spec_callback_url(target: Seq<char>) -> Seq<char> {
    "http://example.com"@ + target
}

/// What reading the request target `target` at time `now` gives.
pub open spec fn spec_parse_callback(target: Seq<char>, now: u64) -> Result<
    TaskSyncView,
    SyncError,
> {
    match url_query_pairs(spec_callback_url(target)) {
        Some(pairs) => Ok(spec_context_from_pairs(pairs, now)),
        None => Err(SyncError::ParseFailure),
    }
}

/// The mathematical value of the result of [`parse_callback`].
pub open spec fn parsed_view(parsed: Result<TaskSyncData, SyncError>) -> Result<
    TaskSyncView,
    SyncError,
> {
    match parsed {
        Ok(context) => Ok(context@),
        Err(error) => Err(error),
    }
}

/// Reads the target of a callback request (its path and query) and builds
/// the context that it delivers, stamped with the time `now` in seconds
/// since the Unix epoch.
///
/// Fails with [`SyncError::ParseFailure`] exactly where the target behind
/// the base is no URL.
pub fn parse_callback(target: &str, now: u64) -> (parsed: Result<TaskSyncData, SyncError>)
    ensures
        parsed_view(parsed) == spec_parse_callback(target@, now),
{
    let url = String::from_str("http://example.com").concat(target);
    match parse_query_pairs(url.as_str()) {
        Ok(pairs) => Ok(context_from_pairs(&pairs, now)),
        Err(_) => Err(SyncError::ParseFailure),
    }
}

/// The pair that carries an optional field, or nothing where the field is
/// absent.
pub open spec fn spec_optional_pair(key: Seq<char>, value: Option<Seq<char>>) -> QueryPairs {
    match value {
        Some(text) => seq![(key, text)],
        None => Seq::empty(),
    }
}

/// The query pairs that carry `context`: the five account, product and board
/// fields always, each optional field where it is present. The time of
/// synchronisation is not carried.
pub open spec fn spec_query_pairs(context: TaskSyncView) -> QueryPairs {
    seq![
        ("account_id"@, context.account_id),
        ("account_name"@, context.account_name),
        ("product_id"@, context.product_id),
        ("product_name"@, context.product_name),
        ("board_id"@, context.board_id),
    ] + spec_optional_pair("board_name"@, context.big_bet) + spec_optional_pair(
        "board_description"@,
        context.big_bet_description,
    ) + spec_optional_pair("task_id"@, context.task_id) + spec_optional_pair(
        "task_name"@,
        context.work_item,
    ) + spec_optional_pair("task_description"@, context.work_item_description)
}

fn push_pair(pairs: &mut Vec<(String, String)>, key: &str, value: &String)
    ensures
        final(pairs).deep_view() == old(pairs).deep_view().push((key@, value@)),
{
    pairs.push((String::from_str(key), value.clone()));
    assert(final(pairs).deep_view() =~= old(pairs).deep_view().push((key@, value@)));
}

fn push_optional_pair(pairs: &mut Vec<(String, String)>, key: &str, value: &Option<String>)
    ensures
        final(pairs).deep_view() == old(pairs).deep_view() + spec_optional_pair(
            key@,
            text_view(*value),
        ),
{
    if let Some(text) = value {
        push_pair(pairs, key, text);
    }
    assert(final(pairs).deep_view() =~= old(pairs).deep_view() + spec_optional_pair(
        key@,
        text_view(*value),
    ));
}

impl TaskSyncData {
    /// The decoded query pairs by which a callback delivers this context.
    pub fn query_pairs(&self) -> (pairs: Vec<(String, String)>)
        ensures
            pairs.deep_view() == spec_query_pairs(self@),
    {
        let mut pairs: Vec<(String, String)> = Vec::new();
        assert(pairs.deep_view() =~= Seq::empty());
        push_pair(&mut pairs, "account_id", &self.account_id);
        push_pair(&mut pairs, "account_name", &self.account_name);
        push_pair(&mut pairs, "product_id", &self.product_id);
        push_pair(&mut pairs, "product_name", &self.product_name);
        push_pair(&mut pairs, "board_id", &self.board_id);
        assert(pairs.deep_view() =~= seq![
            ("account_id"@, self@.account_id),
            ("account_name"@, self@.account_name),
            ("product_id"@, self@.product_id),
            ("product_name"@, self@.product_name),
            ("board_id"@, self@.board_id),
        ]);
        push_optional_pair(&mut pairs, "board_name", &self.big_bet);
        push_optional_pair(&mut pairs, "board_description", &self.big_bet_description);
        push_optional_pair(&mut pairs, "task_id", &self.task_id);
        push_optional_pair(&mut pairs, "task_name", &self.work_item);
        push_optional_pair(&mut pairs, "task_description", &self.work_item_description);
        pairs
    }
}

/// A key has a value exactly where some pair carries it.
pub proof fn lemma_last_value_present(pairs: QueryPairs, key: Seq<char>)
    ensures
        spec_last_value(pairs, key) is Some <==> exists|i: int|
            0 <= i < pairs.len() && (#[trigger] pairs[i]).0 == key,
    decreases pairs.len(),
{
    if pairs.len() > 0 {
        let rest = pairs.drop_last();
        lemma_last_value_present(rest, key);
        if pairs.last().0 == key {
            assert(pairs[pairs.len() - 1].0 == key);
        } else {
            if spec_last_value(rest, key) is Some {
                let i = choose|i: int| 0 <= i < rest.len() && (#[trigger] rest[i]).0 == key;
                assert(pairs[i] == rest[i]);
            }
            if exists|i: int| 0 <= i < pairs.len() && (#[trigger] pairs[i]).0 == key {
                let i = choose|i: int| 0 <= i < pairs.len() && (#[trigger] pairs[i]).0 == key;
                assert(rest[i] == pairs[i]);
            }
        }
    }
}

/// The value of a key is the value of the last pair that carries it, taken
/// as it stands.
pub proof fn lemma_last_value_is_last_occurrence(pairs: QueryPairs, key: Seq<char>, at: int)
    requires
        0 <= at < pairs.len(),
        pairs[at].0 == key,
        forall|j: int| at < j < pairs.len() ==> (#[trigger] pairs[j]).0 != key,
    ensures
        spec_last_value(pairs, key) == Some(pairs[at].1),
    decreases pairs.len(),
{
    if at < pairs.len() - 1 {
        let rest = pairs.drop_last();
        assert(pairs[pairs.len() - 1].0 != key);
        assert forall|j: int| at < j < rest.len() implies (#[trigger] rest[j]).0 != key by {
            assert(rest[j] == pairs[j]);
        }
        lemma_last_value_is_last_occurrence(rest, key, at);
    }
}

/// A callback whose query names the account, the product and the board
/// delivers those three identifiers exactly as the query gives them, and it
/// delivers a task exactly where the query names one.
pub proof fn lemma_callback_identifiers(
    pairs: QueryPairs,
    now: u64,
    account: int,
    product: int,
    board: int,
)
    requires
        0 <= account < pairs.len(),
        0 <= product < pairs.len(),
        0 <= board < pairs.len(),
        pairs[account].0 == "account_id"@,
        pairs[product].0 == "product_id"@,
        pairs[board].0 == "board_id"@,
        forall|j: int| account < j < pairs.len() ==> (#[trigger] pairs[j]).0 != "account_id"@,
        forall|j: int| product < j < pairs.len() ==> (#[trigger] pairs[j]).0 != "product_id"@,
        forall|j: int| board < j < pairs.len() ==> (#[trigger] pairs[j]).0 != "board_id"@,
    ensures
        spec_context_from_pairs(pairs, now).account_id == pairs[account].1,
        spec_context_from_pairs(pairs, now).product_id == pairs[product].1,
        spec_context_from_pairs(pairs, now).board_id == pairs[board].1,
        spec_context_from_pairs(pairs, now).task_id is Some <==> exists|i: int|
            0 <= i < pairs.len() && (#[trigger] pairs[i]).0 == "task_id"@,
{
    lemma_last_value_is_last_occurrence(pairs, "account_id"@, account);
    lemma_last_value_is_last_occurrence(pairs, "product_id"@, product);
    lemma_last_value_is_last_occurrence(pairs, "board_id"@, board);
    lemma_last_value_present(pairs, "task_id"@);
}

/// The ten recognised keys are ten different texts.
proof fn lemma_keys_differ()
    ensures
        "account_id"@.len() == 10 && "account_id"@[0] == 'a',
        "product_id"@.len() == 10 && "product_id"@[0] == 'p',
        "board_name"@.len() == 10 && "board_name"@[0] == 'b',
        "account_name"@.len() == 12 && "account_name"@[0] == 'a',
        "product_name"@.len() == 12 && "product_name"@[0] == 'p',
        "board_id"@.len() == 8,
        "board_description"@.len() == 17,
        "task_id"@.len() == 7,
        "task_name"@.len() == 9,
        "task_description"@.len() == 16,
{
    reveal_strlit("account_id");
    reveal_strlit("account_name");
    reveal_strlit("product_id");
    reveal_strlit("product_name");
    reveal_strlit("board_id");
    reveal_strlit("board_name");
    reveal_strlit("board_description");
    reveal_strlit("task_id");
    reveal_strlit("task_name");
    reveal_strlit("task_description");
}

/// In a query made of two parts, a key takes its value from the second part
/// where that part carries it, and from the first part otherwise.
pub proof fn lemma_last_value_concat(front: QueryPairs, back: QueryPairs, key: Seq<char>)
    ensures
        spec_last_value(front + back, key) == (match spec_last_value(back, key) {
            Some(text) => Some(text),
            None => spec_last_value(front, key),
        }),
    decreases back.len(),
{
    if back.len() == 0 {
        assert(front + back =~= front);
    } else {
        assert((front + back).last() == back.last());
        assert((front + back).drop_last() =~= front + back.drop_last());
        lemma_last_value_concat(front, back.drop_last(), key);
    }
}

proof fn lemma_last_value_optional_pair(own: Seq<char>, value: Option<Seq<char>>, key: Seq<char>)
    ensures
        spec_last_value(spec_optional_pair(own, value), key) == (if own == key {
            value
        } else {
            None
        }),
{
    match value {
        Some(text) => {
            let single = seq![(own, text)];
            assert(single.last() == (own, text));
            assert(single.drop_last().len() == 0);
            assert(spec_last_value(single.drop_last(), key) is None);
        },
        None => {},
    }
}

proof fn lemma_last_value_tail(context: TaskSyncView, front: QueryPairs, key: Seq<char>)
    ensures
        spec_last_value(
            front + spec_optional_pair("board_name"@, context.big_bet) + spec_optional_pair(
                "board_description"@,
                context.big_bet_description,
            ) + spec_optional_pair("task_id"@, context.task_id) + spec_optional_pair(
                "task_name"@,
                context.work_item,
            ) + spec_optional_pair("task_description"@, context.work_item_description),
            key,
        ) == (if key == "task_description"@ && context.work_item_description is Some {
            context.work_item_description
        } else if key == "task_name"@ && context.work_item is Some {
            context.work_item
        } else if key == "task_id"@ && context.task_id is Some {
            context.task_id
        } else if key == "board_description"@ && context.big_bet_description is Some {
            context.big_bet_description
        } else if key == "board_name"@ && context.big_bet is Some {
            context.big_bet
        } else {
            spec_last_value(front, key)
        }),
{
    let bet = spec_optional_pair("board_name"@, context.big_bet);
    let bet_text = spec_optional_pair("board_description"@, context.big_bet_description);
    let task = spec_optional_pair("task_id"@, context.task_id);
    let item = spec_optional_pair("task_name"@, context.work_item);
    let item_text = spec_optional_pair("task_description"@, context.work_item_description);
    lemma_last_value_optional_pair("board_name"@, context.big_bet, key);
    lemma_last_value_optional_pair("board_description"@, context.big_bet_description, key);
    lemma_last_value_optional_pair("task_id"@, context.task_id, key);
    lemma_last_value_optional_pair("task_name"@, context.work_item, key);
    lemma_last_value_optional_pair("task_description"@, context.work_item_description, key);
    lemma_last_value_concat(front, bet, key);
    lemma_last_value_concat(front + bet, bet_text, key);
    lemma_last_value_concat(front + bet + bet_text, task, key);
    lemma_last_value_concat(front + bet + bet_text + task, item, key);
    lemma_last_value_concat(front + bet + bet_text + task + item, item_text, key);
}

/// Round trip: the context that the pairs of `context` deliver is `context`
/// itself, but for the time of synchronisation, which is the time of
/// reading.
pub proof fn lemma_query_pairs_round_trip(context: TaskSyncView, now: u64)
    ensures
        spec_context_from_pairs(spec_query_pairs(context), now) == (TaskSyncView {
            synced_at: Some(now),
            ..context
        }),
{
    lemma_keys_differ();
    let front = seq![
        ("account_id"@, context.account_id),
        ("account_name"@, context.account_name),
        ("product_id"@, context.product_id),
        ("product_name"@, context.product_name),
        ("board_id"@, context.board_id),
    ];
    lemma_last_value_tail(context, front, "account_id"@);
    lemma_last_value_tail(context, front, "account_name"@);
    lemma_last_value_tail(context, front, "product_id"@);
    lemma_last_value_tail(context, front, "product_name"@);
    lemma_last_value_tail(context, front, "board_id"@);
    lemma_last_value_tail(context, front, "board_name"@);
    lemma_last_value_tail(context, front, "board_description"@);
    lemma_last_value_tail(context, front, "task_id"@);
    lemma_last_value_tail(context, front, "task_name"@);
    lemma_last_value_tail(context, front, "task_description"@);
    lemma_last_value_is_last_occurrence(front, "account_id"@, 0);
    lemma_last_value_is_last_occurrence(front, "account_name"@, 1);
    lemma_last_value_is_last_occurrence(front, "product_id"@, 2);
    lemma_last_value_is_last_occurrence(front, "product_name"@, 3);
    lemma_last_value_is_last_occurrence(front, "board_id"@, 4);
    lemma_last_value_present(front, "board_name"@);
    lemma_last_value_present(front, "board_description"@);
    lemma_last_value_present(front, "task_id"@);
    lemma_last_value_present(front, "task_name"@);
    lemma_last_value_present(front, "task_description"@);
}

/// Round trip through a request: a target whose query decodes to the pairs
/// of `context` is read as `context`, stamped with the time of reading.
pub proof fn lemma_callback_round_trip(context: TaskSyncView, target: Seq<char>, now: u64)
    ensures
        url_query_pairs(spec_callback_url(target)) == Some(spec_query_pairs(context))
            ==> spec_parse_callback(target, now) == Ok::<TaskSyncView, SyncError>(
            TaskSyncView { synced_at: Some(now), ..context },
        ),
{
    lemma_query_pairs_round_trip(context, now);
}

} // verus!
