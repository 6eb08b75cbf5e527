use vstd::prelude::*;
use vstd::string::*;
use vstd::utf8::*;

use crate::context::{or_empty, ContextView, RequestContext};
use crate::text::{bytes_to_text, text_of};

verus! {

/// Why an invocation failed. None of the runnables here fails; the kinds
/// exist so that every runnable shares one result type.
#[derive(Debug, Clone, Copy, PartialEq, Eq, Structural)]
pub enum RunError {
    /// A host capability call failed.
    CapabilityFailure,
    /// The input body could not be decoded as required.
    InvalidInput,
}

/// A host capability call that an invocation asks for, in the order given.
#[derive(Debug, PartialEq, Eq)]
pub enum Effect {
    /// Emit `message` at the informational level.
    Log { message: String },
    /// Store `value` under `key`; a `ttl` of zero means the entry never expires.
    CacheSet { key: String, value: Vec<u8>, ttl: i32 },
}

/// An effect as plain values.
pub enum EffectView {
    Log { message: Seq<char> },
    CacheSet { key: Seq<char>, value: Seq<u8>, ttl: i32 },
}

impl View for Effect {
    type V = EffectView;

    open spec fn view(&self) -> EffectView {
        match self {
            Effect::Log { message } => EffectView::Log { message: message@ },
            Effect::CacheSet { key, value, ttl } => EffectView::CacheSet {
                key: key@,
                value: value@,
                ttl: *ttl,
            },
        }
    }
}

/// A list of effects as plain values, in the same order.
pub open spec fn effects_view(s: Seq<Effect>) -> Seq<EffectView> {
    s.map_values(|e: Effect| e@)
}

/// What one invocation produced: the output body and the capability calls
/// for the host to perform.
pub struct Outcome {
    pub output: Vec<u8>,
    pub effects: Vec<Effect>,
}

/// The time-to-live that stores an entry with no expiration.
pub const NO_EXPIRY: i32 = 0;

/// `"hello "` followed by `message`.
pub open spec fn greeting(message: Seq<char>) -> Seq<char> {
    "hello "@ + message
}

/// The UTF-8 bytes of the greeting for `message`.
pub open spec fn greeting_bytes(message: Seq<char>) -> Seq<u8> {
    encode_utf8(greeting(message))
}

proof fn lemma_encode_utf8_concat(a: Seq<char>, b: Seq<char>)
    ensures
        encode_utf8(a + b) == encode_utf8(a) + encode_utf8(b),
    decreases a.len(),
{
    if a.len() == 0 {
        assert(a + b =~= b);
        assert(encode_utf8(a) + encode_utf8(b) =~= encode_utf8(b));
    } else {
        assert((a + b).drop_first() =~= a.drop_first() + b);
        lemma_encode_utf8_concat(a.drop_first(), b);
        assert(encode_utf8(a + b) =~= encode_utf8(a) + encode_utf8(b));
    }
}

fn greet(message: &str) -> (r: Vec<u8>)
    ensures
        r@ == greeting_bytes(message@),
{
    let text = String::from_str("hello ").concat(message);
    text.as_str().as_bytes_vec()
}

/// The log line that a cache write under `key` announces.
pub open spec fn cache_log_line(key: Seq<char>) -> Seq<char> {
    "setting cache value "@ + key
}

/// The key that Cache-Set writes under: the URL parameter `key`, or the empty
/// string where the request has none.
pub open spec fn cache_key(ctx: ContextView) -> Seq<char> {
    or_empty(ctx.url_param("key"@))
}

/// The capability calls of Cache-Set: one log line, then one write of the
/// whole input under the cache key, with no expiration.
pub open spec fn cache_set_effects(input: Seq<u8>, ctx: ContextView) -> Seq<EffectView> {
    seq![
        EffectView::Log { message: cache_log_line(cache_key(ctx)) },
        EffectView::CacheSet { key: cache_key(ctx), value: input, ttl: 0 },
    ]
}

/// The output of Echo-by-Header: the greeting for the `message` header, or
/// for the empty string where the request has none. The input is not read.
pub open spec fn header_echo_output(input: Seq<u8>, ctx: ContextView) -> Seq<u8> {
    greeting_bytes(or_empty(ctx.header("message"@)))
}

/// The output of Echo-by-Body: the greeting for the text of the input.
pub open spec fn body_echo_output(input: Seq<u8>) -> Seq<u8> {
    greeting_bytes(text_of(input))
}

/// The cache writes among `effects`, in order.
pub open spec fn cache_writes(effects: Seq<EffectView>) -> Seq<EffectView>
    decreases effects.len(),
{
    if effects.len() == 0 {
        Seq::empty()
    } else if effects.last() is CacheSet {
        cache_writes(effects.drop_last()).push(effects.last())
    } else {
        cache_writes(effects.drop_last())
    }
}

/// Cache-Set makes exactly one cache write: the whole input under the URL
/// parameter `key` (the empty string where there is none), with time-to-live
/// zero.
pub proof fn lemma_cache_set_writes_once(input: Seq<u8>, ctx: ContextView)
    ensures
        cache_writes(cache_set_effects(input, ctx)) == seq![
            EffectView::CacheSet { key: cache_key(ctx), value: input, ttl: 0 },
        ],
{
    let all = cache_set_effects(input, ctx);
    let first = all.drop_last();
    assert(first.len() == 1 && first.last() == all[0]);
    assert(first.drop_last() =~= Seq::<EffectView>::empty());
    assert(cache_writes(first.drop_last()) == Seq::<EffectView>::empty());
    assert(first.last() is Log);
    assert(cache_writes(first) =~= Seq::<EffectView>::empty());
    assert(cache_writes(all) =~= seq![all[1]]);
}

/// Echo-by-Header keeps no state and does not read its input: invocations
/// with the same request context return the same bytes, whatever inputs they
/// are handed.
pub proof fn lemma_header_echo_repeatable(
    first_input: Seq<u8>,
    second_input: Seq<u8>,
    ctx: ContextView,
)
    ensures
        header_echo_output(first_input, ctx) == header_echo_output(second_input, ctx),
{
}

/// Writes the input body into the cache under the URL parameter `key`.
pub struct CacheSet {}

impl CacheSet {
    pub fn run(&self, input: Vec<u8>, ctx: &RequestContext) -> (r: Result<Outcome, RunError>)
        ensures
            r is Ok,
            r->Ok_0.output@ == Seq::<u8>::empty(),
            effects_view(r->Ok_0.effects@) == cache_set_effects(input@, ctx@),
            cache_writes(effects_view(r->Ok_0.effects@)) == seq![
                EffectView::CacheSet {
                    key: ctx@.url_param("key"@).unwrap_or(Seq::empty()),
                    value: input@,
                    ttl: 0,
                },
            ],
    {
        let key = match ctx.url_param("key") {
            Some(k) => k,
            None => String::new(),
        };
        let message = String::from_str("setting cache value ").concat(key.as_str());
        let ghost value = input@;
        let mut effects: Vec<Effect> = Vec::new();
        effects.push(Effect::Log { message });
        effects.push(Effect::CacheSet { key, value: input, ttl: NO_EXPIRY });
        proof {
            assert(effects_view(effects@) =~= cache_set_effects(value, ctx@));
            lemma_cache_set_writes_once(value, ctx@);
        }
        Ok(Outcome { output: Vec::new(), effects })
    }
}

/// Greets the message carried in the input body.
pub struct HelloEcho {}

impl HelloEcho {
    pub fn run(&self, input: Vec<u8>, _ctx: &RequestContext) -> (r: Result<Outcome, RunError>)
        ensures
            r is Ok,
            r->Ok_0.output@ == body_echo_output(input@),
            valid_utf8(input@) ==> r->Ok_0.output@ == encode_utf8("hello "@ + decode_utf8(input@)),
            valid_utf8(input@) ==> r->Ok_0.output@ == encode_utf8("hello "@) + input@,
            !valid_utf8(input@) ==> r->Ok_0.output@ == encode_utf8("hello "@),
            r->Ok_0.effects@ == Seq::<Effect>::empty(),
    {
        let ghost body = input@;
        let message = bytes_to_text(input);
        let output = greet(message.as_str());
        proof {
            if valid_utf8(body) {
                lemma_encode_utf8_concat("hello "@, decode_utf8(body));
                decode_utf8_encode_utf8(body);
            } else {
                assert(greeting(Seq::empty()) =~= "hello "@);
            }
        }
        Ok(Outcome { output, effects: Vec::new() })
    }
}

/// Greets the message carried in the `message` header.
pub struct HeaderEcho {}

impl HeaderEcho {
    pub fn run(&self, input: Vec<u8>, ctx: &RequestContext) -> (r: Result<Outcome, RunError>)
        ensures
            r is Ok,
            r->Ok_0.output@ == header_echo_output(input@, ctx@),
            ctx@.header("message"@) matches Some(m) ==> r->Ok_0.output@ == encode_utf8(
                "hello "@ + m,
            ),
            ctx@.header("message"@) is None ==> r->Ok_0.output@ == encode_utf8("hello "@),
            r->Ok_0.effects@ == Seq::<Effect>::empty(),
    {
        let message = match ctx.header("message") {
            Some(m) => m,
            None => String::new(),
        };
        let output = greet(message.as_str());
        proof {
            assert(greeting(Seq::empty()) =~= "hello "@);
        }
        Ok(Outcome { output, effects: Vec::new() })
    }
}

} // verus!
