//! The text of the page that the service answers with.

use crate::transport::Transport;
use vstd::prelude::*;
use vstd::string::*;

verus! {

/// The fragment that every page is made of.
pub const GREETING: &'static str = "<h1>Hello, World!</h1>";

/// How many copies of the fragment the page holds behind TLS. One copy is
/// too short for the compressing middleware to bother with; this many are
/// not.
pub const TLS_REPEATS: usize = 100;

/// How many copies of the fragment the page holds over plain TCP.
pub const PLAIN_REPEATS: usize = 1;

/// `fragment` written `times` times in a row.
pub open spec fn repeated(fragment: Seq<char>, times: nat) -> Seq<char>
    decreases times,
{
    if times == 0 {
        Seq::empty()
    } else {
        repeated(fragment, (times - 1) as nat) + fragment
    }
}

/// How many copies of the fragment the page of `transport` holds.
pub open spec fn repeats_spec(transport: Transport) -> usize {
    match transport {
        Transport::Plain => PLAIN_REPEATS,
        Transport::Tls => TLS_REPEATS,
    }
}

/// The page of `transport`, as a sequence of characters.
pub open spec fn page_text(transport: Transport) -> Seq<char> {
    repeated(GREETING@, repeats_spec(transport) as nat)
}

/// The length of a repetition is the product of the two lengths.
pub proof fn lemma_repeated_len(fragment: Seq<char>, times: nat)
    ensures
        repeated(fragment, times).len() == times * fragment.len(),
    decreases times,
{
    let len = fragment.len();
    if times == 0 {
        assert(times * len == 0) by (nonlinear_arith)
            requires
                times == 0,
        ;
    } else {
        let fewer = (times - 1) as nat;
        lemma_repeated_len(fragment, fewer);
        assert(times * len == fewer * len + len) by (nonlinear_arith)
            requires
                times == fewer + 1,
        ;
    }
}

/// Every copy is where it belongs: the `k`-th stretch of `fragment.len()`
/// characters of a repetition is the fragment itself.
pub proof fn lemma_repeated_copy(fragment: Seq<char>, times: nat, k: nat)
    requires
        k < times,
    ensures
        (k + 1) * fragment.len() <= repeated(fragment, times).len(),
        repeated(fragment, times).subrange(
            (k * fragment.len()) as int,
            ((k + 1) * fragment.len()) as int,
        ) == fragment,
    decreases times,
{
    let len = fragment.len();
    let from = (k * len) as int;
    let to = ((k + 1) * len) as int;
    let whole = repeated(fragment, times);
    let front = repeated(fragment, (times - 1) as nat);
    lemma_repeated_len(fragment, times);
    lemma_repeated_len(fragment, (times - 1) as nat);
    let fewer = (times - 1) as nat;
    assert((k + 1) * len == k * len + len) by (nonlinear_arith);
    assert(times * len == fewer * len + len) by (nonlinear_arith)
        requires
            times == fewer + 1,
    ;
    if k + 1 == times {
        assert(whole.subrange(from, to) =~= fragment);
    } else {
        lemma_repeated_copy(fragment, (times - 1) as nat, k);
        assert(whole.subrange(from, to) =~= front.subrange(from, to));
    }
}

/// Writes `fragment` `times` times in a row.
pub fn repeat_text(fragment: &str, times: usize) -> (text: String)
    ensures
        text@ == repeated(fragment@, times as nat),
{
    let mut text = String::new();
    let mut written: usize = 0;
    while written < times
        invariant
            written <= times,
            text@ == repeated(fragment@, written as nat),
        decreases times - written,
    {
        text.append(fragment);
        written = written + 1;
    }
    text
}

/// How many copies of the fragment the page of `transport` holds.
#[verifier::when_used_as_spec(repeats_spec)]
pub fn repeats(transport: Transport) -> (times: usize)
    ensures
        times == repeats_spec(transport),
{
    match transport {
        Transport::Plain => PLAIN_REPEATS,
        Transport::Tls => TLS_REPEATS,
    }
}

/// The page that `transport` serves.
pub fn page(transport: Transport) -> (body: String)
    ensures
        body@ == page_text(transport),
{
    repeat_text(GREETING, repeats(transport))
}

/// What the route behind TLS answers with, whatever the request holds.
pub fn handler() -> (body: String)
    ensures
        body@ == page_text(Transport::Tls),
{
    page(Transport::Tls)
}

/// The page is made of whole greetings and nothing else: it is as long as
/// its copies together, and each of them reads as the greeting.
pub proof fn lemma_page_is_greetings(transport: Transport, k: int)
    requires
        0 <= k < repeats_spec(transport),
    ensures
        GREETING@.len() == 22,
        page_text(transport).len() == 22 * repeats_spec(transport),
        page_text(transport).subrange(22 * k, 22 * k + 22) == GREETING@,
{
    reveal_strlit("<h1>Hello, World!</h1>");
    let times = repeats_spec(transport) as nat;
    lemma_repeated_len(GREETING@, times);
    lemma_repeated_copy(GREETING@, times, k as nat);
    assert(k * 22 == 22 * k) by (nonlinear_arith);
    assert((k + 1) * 22 == 22 * k + 22) by (nonlinear_arith);
    assert(times * 22 == 22 * times) by (nonlinear_arith);
}

/// Behind TLS the page begins with the greeting and is well over a hundred
/// characters long.
pub proof fn lemma_tls_page_shape()
    ensures
        page_text(Transport::Tls).len() == 2200,
        page_text(Transport::Tls).len() > 100,
        page_text(Transport::Tls).subrange(0, 22) == GREETING@,
{
    lemma_page_is_greetings(Transport::Tls, 0);
}

/// Over plain TCP the page is the greeting, once.
pub proof fn lemma_plain_page_is_greeting()
    ensures
        page_text(Transport::Plain) == GREETING@,
{
    lemma_page_is_greetings(Transport::Plain, 0);
    assert(page_text(Transport::Plain).subrange(0, 22) =~= page_text(Transport::Plain));
}

} // verus!
