use std::time::Duration;
use vstd::prelude::*;

verus! {

/// Name for what `std::time::Duration::from_secs(secs)` returns.
pub uninterp spec fn duration_from_secs(secs: u64) -> Duration;

/// Calls `std::time::Duration::from_secs`; the result is the named
/// `duration_from_secs(secs)`.
#[verifier::external_body]
fn secs_to_duration(secs: u64) -> (d: Duration)
    ensures
        d == duration_from_secs(secs),
{
    Duration::from_secs(secs)
}

/// An ASCII decimal digit.
pub open spec fn is_digit(c: char) -> bool {
    '0' <= c && c <= '9'
}

/// The number a non-empty run of decimal digits writes, most significant first.
pub open spec fn digits_value(d: Seq<char>) -> int
    decreases d.len(),
{
    if d.len() == 0 {
        0
    } else {
        digits_value(d.drop_last()) * 10 + ((d.last() as int) - ('0' as int))
    }
}

/// A run of decimal digits writes a natural number.
pub proof fn lemma_digits_value_nonnegative(d: Seq<char>)
    requires
        forall|i: int| 0 <= i < d.len() ==> is_digit(#[trigger] d[i]),
    ensures
        digits_value(d) >= 0,
    decreases d.len(),
{
    if d.len() > 0 {
        let init = d.drop_last();
        assert forall|i: int| 0 <= i < init.len() implies is_digit(#[trigger] init[i]) by {
            assert(init[i] == d[i]);
        }
        lemma_digits_value_nonnegative(init);
        assert(is_digit(d[d.len() - 1]));
    }
}

/// What `parse_unsigned` accepts is a natural number.
pub proof fn lemma_parse_unsigned_nonnegative(s: Seq<char>, max: int)
    ensures
        parse_unsigned(s, max) matches Some(v) ==> 0 <= v <= max,
{
    let d = unsigned_digits(s);
    if parse_unsigned(s, max) is Some {
        lemma_digits_value_nonnegative(d);
    }
}

/// The digits of an unsigned decimal literal: one optional leading `+` is dropped.
pub open spec fn unsigned_digits(s: Seq<char>) -> Seq<char> {
    if s.len() > 0 && s[0] == '+' {
        s.drop_first()
    } else {
        s
    }
}

/// What parsing `s` as an unsigned integer no greater than `max` gives, as
/// Rust's integer `FromStr` documents it: an optional `+` followed by one or
/// more ASCII digits only, whose value does not exceed `max`; anything else
/// (empty text, whitespace, signs other than one leading `+`, underscores,
/// overflow) is an error.
pub open spec fn parse_unsigned(s: Seq<char>, max: int) -> Option<int> {
    let d = unsigned_digits(s);
    if d.len() > 0 && (forall|i: int| 0 <= i < d.len() ==> is_digit(#[trigger] d[i])) && digits_value(d) <= max {
        Some(digits_value(d))
    } else {
        None
    }
}

/// Calls `<u64 as FromStr>::from_str` (`str::parse::<u64>`); the result is
/// the value the text writes exactly when the documented grammar accepts it
/// and the value fits in a `u64`.
#[verifier::external_body]
fn parse_u64(s: &str) -> (r: Option<u64>)
    ensures
        match parse_unsigned(s@, u64::MAX as int) {
            Some(v) => r == Some(v as u64),
            None => r is None,
        },
{
    s.parse::<u64>().ok()
}

/// Calls `<usize as FromStr>::from_str` (`str::parse::<usize>`); the result
/// is the value the text writes exactly when the documented grammar accepts
/// it and the value fits in a `usize`.
#[verifier::external_body]
fn parse_usize(s: &str) -> (r: Option<usize>)
    ensures
        match parse_unsigned(s@, usize::MAX as int) {
            Some(v) => r == Some(v as usize),
            None => r is None,
        },
{
    s.parse::<usize>().ok()
}

pub const BACKEND_URL_VAR: &'static str = "WEIR_AGENT_BACKEND_URL";
pub const ORG_KEY_VAR: &'static str = "WEIR_AGENT_ORG_KEY";
pub const INSTANCE_ID_VAR: &'static str = "WEIR_AGENT_INSTANCE_ID";
pub const EVENTS_URL_VAR: &'static str = "WEIR_AGENT_EVENTS_URL";
pub const POLL_INTERVAL_VAR: &'static str = "WEIR_AGENT_POLL_INTERVAL_SECS";
pub const BATCH_SIZE_VAR: &'static str = "WEIR_AGENT_BATCH_SIZE";
pub const STATE_FILE_VAR: &'static str = "WEIR_AGENT_STATE_FILE";

pub const DEFAULT_EVENTS_URL: &'static str = "http://localhost:8080/events";
pub const DEFAULT_POLL_INTERVAL_SECS: u64 = 15;
pub const DEFAULT_BATCH_SIZE: usize = 500;
pub const DEFAULT_STATE_FILE: &'static str = "./weir-agent-state.json";

pub const MISSING_PREFIX: &'static str = "missing required config: ";
pub const POLL_NOT_INTEGER: &'static str = "WEIR_AGENT_POLL_INTERVAL_SECS must be a positive integer";
pub const POLL_ZERO: &'static str = "WEIR_AGENT_POLL_INTERVAL_SECS must be greater than 0";
pub const BATCH_NOT_INTEGER: &'static str = "WEIR_AGENT_BATCH_SIZE must be a positive integer";
pub const BATCH_ZERO: &'static str = "WEIR_AGENT_BATCH_SIZE must be greater than 0";


/// The agent's configuration.
#[derive(Debug)]
pub struct Config {
    pub events_url: String,
    pub backend_url: String,
    pub org_key: String,
    pub instance_id: String,
    pub poll_interval: Duration,
    pub batch_size: usize,
    /// The path of the state file, as text.
    pub state_file: String,
}

impl Clone for Config {
    fn clone(&self) -> (c: Config)
        ensures
            c == *self,
    {
        Config {
            events_url: self.events_url.clone(),
            backend_url: self.backend_url.clone(),
            org_key: self.org_key.clone(),
            instance_id: self.instance_id.clone(),
            poll_interval: self.poll_interval,
            batch_size: self.batch_size,
            state_file: self.state_file.clone(),
        }
    }
}

/// The configuration as plain values, the poll interval in whole seconds.
pub struct ConfigView {
    pub events_url: Seq<char>,
    pub backend_url: Seq<char>,
    pub org_key: Seq<char>,
    pub instance_id: Seq<char>,
    pub poll_interval_secs: u64,
    pub batch_size: usize,
    pub state_file: Seq<char>,
}

/// What each configuration variable was set to, if anything, by name.
pub struct Lookups {
    pub backend_url: Option<Seq<char>>,
    pub org_key: Option<Seq<char>>,
    pub instance_id: Option<Seq<char>>,
    pub events_url: Option<Seq<char>>,
    pub poll_interval_secs: Option<Seq<char>>,
    pub batch_size: Option<Seq<char>>,
    pub state_file: Option<Seq<char>>,
}

/// The view of an optional `String`.
pub open spec fn opt_view(v: Option<String>) -> Option<Seq<char>> {
    match v {
        Some(s) => Some(s@),
        None => None,
    }
}

/// A variable counts as set when it is present and not empty.
pub open spec fn is_set(v: Option<Seq<char>>) -> bool {
    v matches Some(s) && s.len() > 0
}

/// The value of an optional variable, or `default` when it is unset or empty.
pub open spec fn or_default(v: Option<Seq<char>>, default: Seq<char>) -> Seq<char> {
    if is_set(v) {
        v->0
    } else {
        default
    }
}

/// The message for a required variable that is missing or empty.
pub open spec fn missing_message(var: Seq<char>) -> Seq<char> {
    MISSING_PREFIX@ + var
}

/// The poll interval in seconds: 15 when unset; otherwise the text must be
/// an unsigned integer (an empty text is not) and must not be 0.
pub open spec fn poll_interval_from(v: Option<Seq<char>>) -> Result<u64, Seq<char>> {
    match v {
        None => Ok(DEFAULT_POLL_INTERVAL_SECS),
        Some(t) => match parse_unsigned(t, u64::MAX as int) {
            None => Err(POLL_NOT_INTEGER@),
            Some(n) => if n == 0 {
                Err(POLL_ZERO@)
            } else {
                Ok(n as u64)
            },
        },
    }
}

/// The batch size: 500 when unset; otherwise the text must be an unsigned
/// integer (an empty text is not) and must not be 0.
pub open spec fn batch_size_from(v: Option<Seq<char>>) -> Result<usize, Seq<char>> {
    match v {
        None => Ok(DEFAULT_BATCH_SIZE),
        Some(t) => match parse_unsigned(t, usize::MAX as int) {
            None => Err(BATCH_NOT_INTEGER@),
            Some(n) => if n == 0 {
                Err(BATCH_ZERO@)
            } else {
                Ok(n as usize)
            },
        },
    }
}

/// The configuration that the variables give, or the message of the first
/// problem, checked in this order: backend URL, org key, instance id (each
/// required and non-empty), poll interval, batch size. The events URL and the
/// state file fall back to their defaults when unset or empty.
pub open spec fn config_from(l: Lookups) -> Result<ConfigView, Seq<char>> {
    if !is_set(l.backend_url) {
        Err(missing_message(BACKEND_URL_VAR@))
    } else if !is_set(l.org_key) {
        Err(missing_message(ORG_KEY_VAR@))
    } else if !is_set(l.instance_id) {
        Err(missing_message(INSTANCE_ID_VAR@))
    } else {
        match poll_interval_from(l.poll_interval_secs) {
            Err(e) => Err(e),
            Ok(poll) => match batch_size_from(l.batch_size) {
                Err(e) => Err(e),
                Ok(batch) => Ok(
                    ConfigView {
                        events_url: or_default(l.events_url, DEFAULT_EVENTS_URL@),
                        backend_url: l.backend_url->0,
                        org_key: l.org_key->0,
                        instance_id: l.instance_id->0,
                        poll_interval_secs: poll,
                        batch_size: batch,
                        state_file: or_default(l.state_file, DEFAULT_STATE_FILE@),
                    },
                ),
            },
        }
    }
}

/// `c` is the configuration that `v` describes.
pub open spec fn describes(c: Config, v: ConfigView) -> bool {
    &&& c.events_url@ == v.events_url
    &&& c.backend_url@ == v.backend_url
    &&& c.org_key@ == v.org_key
    &&& c.instance_id@ == v.instance_id
    &&& c.poll_interval == duration_from_secs(v.poll_interval_secs)
    &&& c.batch_size == v.batch_size
    &&& c.state_file@ == v.state_file
}

/// `r` is the outcome that `expected` describes: the same configuration, or
/// an error with the same message.
pub open spec fn outcome_is(r: Result<Config, String>, expected: Result<ConfigView, Seq<char>>) -> bool {
    match (r, expected) {
        (Ok(c), Ok(v)) => describes(c, v),
        (Err(e), Err(m)) => e@ == m,
        _ => false,
    }
}

/// The lookups `from_source` makes, in order, each made only when every
/// check before it passed: `get` answered `b` for the backend URL, and (as
/// far as the checks went on) `o`, `i`, `e`, `p`, `n`, `f` for the org key,
/// instance id, events URL, poll interval, batch size and state file; and
/// `r` is the outcome these values give.
pub open spec fn source_answers<F: Fn(&str) -> Option<String>>(
    get: F,
    b: Option<String>,
    o: Option<String>,
    i: Option<String>,
    e: Option<String>,
    p: Option<String>,
    n: Option<String>,
    f: Option<String>,
    r: Result<Config, String>,
) -> bool {
    let required_set = is_set(opt_view(b)) && is_set(opt_view(o)) && is_set(opt_view(i));
    let poll_ok = poll_interval_from(opt_view(p)) is Ok;
    let batch_ok = batch_size_from(opt_view(n)) is Ok;
    &&& get.ensures((BACKEND_URL_VAR,), b)
    &&& is_set(opt_view(b)) ==> get.ensures((ORG_KEY_VAR,), o)
    &&& is_set(opt_view(b)) && is_set(opt_view(o)) ==> get.ensures((INSTANCE_ID_VAR,), i)
    &&& required_set ==> get.ensures((EVENTS_URL_VAR,), e) && get.ensures((POLL_INTERVAL_VAR,), p)
    &&& required_set && poll_ok ==> get.ensures((BATCH_SIZE_VAR,), n)
    &&& required_set && poll_ok && batch_ok ==> get.ensures((STATE_FILE_VAR,), f)
    &&& outcome_is(
        r,
        config_from(
            Lookups {
                backend_url: opt_view(b),
                org_key: opt_view(o),
                instance_id: opt_view(i),
                events_url: opt_view(e),
                poll_interval_secs: opt_view(p),
                batch_size: opt_view(n),
                state_file: opt_view(f),
            },
        ),
    )
}

/// A configuration that builds always polls at an interval of at least one
/// second and asks for batches of at least one event.
pub proof fn lemma_config_limits_are_positive(l: Lookups)
    ensures
        config_from(l) matches Ok(v) ==> v.poll_interval_secs > 0 && v.batch_size > 0,
{
    if let Some(t) = l.poll_interval_secs {
        lemma_parse_unsigned_nonnegative(t, u64::MAX as int);
    }
    if let Some(t) = l.batch_size {
        lemma_parse_unsigned_nonnegative(t, usize::MAX as int);
    }
}

/// Every batch size that parses is accepted as it is, except 0: when the
/// text writes a number `n` with `0 < n <= usize::MAX`, the batch size is `n`.
/// Only an unparsable text or 0 is an error. Unset, it is 500.
pub proof fn lemma_batch_size_accepts_every_positive_value(t: Seq<char>, n: int)
    ensures
        parse_unsigned(t, usize::MAX as int) == Some(n) && n > 0 ==> batch_size_from(Some(t)) == Ok::<usize, Seq<char>>(n as usize),
        parse_unsigned(t, usize::MAX as int) == Some(0int) ==> batch_size_from(Some(t)) is Err,
        parse_unsigned(t, usize::MAX as int) is None ==> batch_size_from(Some(t)) is Err,
        batch_size_from(None) == Ok::<usize, Seq<char>>(500),
{
}

/// Every poll interval that parses is accepted as it is, except 0: when the
/// text writes a number `n` with `0 < n <= u64::MAX`, the interval is `n`
/// seconds. Only an unparsable text or 0 is an error. Unset, it is 15.
pub proof fn lemma_poll_interval_accepts_every_positive_value(t: Seq<char>, n: int)
    ensures
        parse_unsigned(t, u64::MAX as int) == Some(n) && n > 0 ==> poll_interval_from(Some(t)) == Ok::<u64, Seq<char>>(n as u64),
        parse_unsigned(t, u64::MAX as int) == Some(0int) ==> poll_interval_from(Some(t)) is Err,
        parse_unsigned(t, u64::MAX as int) is None ==> poll_interval_from(Some(t)) is Err,
        poll_interval_from(None) == Ok::<u64, Seq<char>>(15),
{
}

/// With the required variables set and a poll interval that parses to a
/// positive value, a batch size whose text parses to `n` with
/// `0 < n <= usize::MAX` gives a configuration whose batch size is `n`.
pub proof fn lemma_config_takes_any_positive_batch_size(l: Lookups, t: Seq<char>, n: int)
    requires
        is_set(l.backend_url),
        is_set(l.org_key),
        is_set(l.instance_id),
        poll_interval_from(l.poll_interval_secs) is Ok,
        l.batch_size == Some(t),
        parse_unsigned(t, usize::MAX as int) == Some(n),
        n > 0,
    ensures
        config_from(l) matches Ok(v) && v.batch_size == n,
{
}

/// The required variables are checked in order, and the first one that is
/// unset or empty is named in the error; with all three set and nothing else
/// set, the configuration holds them with every default: events URL
/// `http://localhost:8080/events`, 15 seconds, 500 events, state file
/// `./weir-agent-state.json`.
pub proof fn lemma_required_variables_and_defaults(l: Lookups)
    ensures
        !is_set(l.backend_url) ==> config_from(l) == Err::<ConfigView, Seq<char>>(
            "missing required config: "@ + "WEIR_AGENT_BACKEND_URL"@,
        ),
        is_set(l.backend_url) && !is_set(l.org_key) ==> config_from(l) == Err::<ConfigView, Seq<char>>(
            "missing required config: "@ + "WEIR_AGENT_ORG_KEY"@,
        ),
        is_set(l.backend_url) && is_set(l.org_key) && !is_set(l.instance_id) ==> config_from(l) == Err::<
            ConfigView,
            Seq<char>,
        >("missing required config: "@ + "WEIR_AGENT_INSTANCE_ID"@),
        is_set(l.backend_url) && is_set(l.org_key) && is_set(l.instance_id) && l.events_url is None
            && l.poll_interval_secs is None && l.batch_size is None && l.state_file is None ==> config_from(l)
            == Ok::<ConfigView, Seq<char>>(
            ConfigView {
                events_url: "http://localhost:8080/events"@,
                backend_url: l.backend_url->0,
                org_key: l.org_key->0,
                instance_id: l.instance_id->0,
                poll_interval_secs: 15,
                batch_size: 500,
                state_file: "./weir-agent-state.json"@,
            },
        ),
{
}

fn missing(var: &str) -> (e: String)
    ensures
        e@ == missing_message(var@),
{
    let mut e = String::from_str(MISSING_PREFIX);
    e.append(var);
    e
}

/// The value of a required variable: present and not empty.
fn required(v: Option<String>, var: &str) -> (r: Result<String, String>)
    ensures
        is_set(opt_view(v)) ==> (r matches Ok(s) && s@ == opt_view(v)->0),
        !is_set(opt_view(v)) ==> (r matches Err(e) && e@ == missing_message(var@)),
{
    match v {
        Some(s) => {
            if s.as_str().is_empty() {
                Err(missing(var))
            } else {
                Ok(s)
            }
        },
        None => Err(missing(var)),
    }
}

/// The value of an optional text variable, or `default` when unset or empty.
fn text_or(v: Option<String>, default: &str) -> (r: String)
    ensures
        r@ == or_default(opt_view(v), default@),
{
    match v {
        Some(s) => {
            if s.as_str().is_empty() {
                String::from_str(default)
            } else {
                s
            }
        },
        None => String::from_str(default),
    }
}

fn poll_interval_secs(v: Option<String>) -> (r: Result<u64, String>)
    ensures
        match (r, poll_interval_from(opt_view(v))) {
            (Ok(a), Ok(b)) => a == b,
            (Err(e), Err(m)) => e@ == m,
            _ => false,
        },
        r matches Ok(n) ==> n > 0,
{
    match v {
        None => Ok(DEFAULT_POLL_INTERVAL_SECS),
        Some(t) => match parse_u64(t.as_str()) {
            None => Err(String::from_str(POLL_NOT_INTEGER)),
            Some(n) => {
                proof {
                    lemma_parse_unsigned_nonnegative(t@, u64::MAX as int);
                }
                if n == 0 {
                    Err(String::from_str(POLL_ZERO))
                } else {
                    Ok(n)
                }
            },
        },
    }
}

fn batch_size(v: Option<String>) -> (r: Result<usize, String>)
    ensures
        match (r, batch_size_from(opt_view(v))) {
            (Ok(a), Ok(b)) => a == b,
            (Err(e), Err(m)) => e@ == m,
            _ => false,
        },
        r matches Ok(n) ==> n > 0,
{
    match v {
        None => Ok(DEFAULT_BATCH_SIZE),
        Some(t) => match parse_usize(t.as_str()) {
            None => Err(String::from_str(BATCH_NOT_INTEGER)),
            Some(n) => {
                proof {
                    lemma_parse_unsigned_nonnegative(t@, usize::MAX as int);
                }
                if n == 0 {
                    Err(String::from_str(BATCH_ZERO))
                } else {
                    Ok(n)
                }
            },
        },
    }
}

impl Config {
    /// Builds the configuration from the values of its variables, each given
    /// as what the variable is set to, if anything.
    pub fn from_values(
        backend_url: Option<String>,
        org_key: Option<String>,
        instance_id: Option<String>,
        events_url: Option<String>,
        poll_interval_secs: Option<String>,
        batch_size: Option<String>,
        state_file: Option<String>,
    ) -> (r: Result<Config, String>)
        ensures
            outcome_is(
                r,
                config_from(
                    Lookups {
                        backend_url: opt_view(backend_url),
                        org_key: opt_view(org_key),
                        instance_id: opt_view(instance_id),
                        events_url: opt_view(events_url),
                        poll_interval_secs: opt_view(poll_interval_secs),
                        batch_size: opt_view(batch_size),
                        state_file: opt_view(state_file),
                    },
                ),
            ),
            r matches Ok(c) ==> c.batch_size > 0,
    {
        let backend_url = match required(backend_url, BACKEND_URL_VAR) {
            Ok(v) => v,
            Err(e) => return Err(e),
        };
        let org_key = match required(org_key, ORG_KEY_VAR) {
            Ok(v) => v,
            Err(e) => return Err(e),
        };
        let instance_id = match required(instance_id, INSTANCE_ID_VAR) {
            Ok(v) => v,
            Err(e) => return Err(e),
        };
        let events_url = text_or(events_url, DEFAULT_EVENTS_URL);
        let poll = match self::poll_interval_secs(poll_interval_secs) {
            Ok(n) => n,
            Err(e) => return Err(e),
        };
        let batch = match self::batch_size(batch_size) {
            Ok(n) => n,
            Err(e) => return Err(e),
        };
        let state_file = text_or(state_file, DEFAULT_STATE_FILE);
        Ok(
            Config {
                events_url,
                backend_url,
                org_key,
                instance_id,
                poll_interval: secs_to_duration(poll),
                batch_size: batch,
                state_file,
            },
        )
    }

    /// Builds the configuration from a source of variables: `get` returns
    /// the value of the variable it is given the name of, if set. Variables
    /// are looked up in the order they are checked, and the lookups stop at
    /// the first problem.
    pub fn from_source<F: Fn(&str) -> Option<String>>(get: F) -> (r: Result<Config, String>)
        requires
            forall|name: &str| get.requires((name,)),
        ensures
            exists|
                b: Option<String>,
                o: Option<String>,
                i: Option<String>,
                e: Option<String>,
                p: Option<String>,
                n: Option<String>,
                f: Option<String>,
            | #[trigger] source_answers(get, b, o, i, e, p, n, f, r),
    {
        let b = get(BACKEND_URL_VAR);
        let ghost gb = b;
        let backend_url = match required(b, BACKEND_URL_VAR) {
            Ok(v) => v,
            Err(err) => {
                let r = Err(err);
                assert(source_answers(get, gb, None, None, None, None, None, None, r));
                return r;
            },
        };
        let o = get(ORG_KEY_VAR);
        let ghost go = o;
        let org_key = match required(o, ORG_KEY_VAR) {
            Ok(v) => v,
            Err(err) => {
                let r = Err(err);
                assert(source_answers(get, gb, go, None, None, None, None, None, r));
                return r;
            },
        };
        let i = get(INSTANCE_ID_VAR);
        let ghost gi = i;
        let instance_id = match required(i, INSTANCE_ID_VAR) {
            Ok(v) => v,
            Err(err) => {
                let r = Err(err);
                assert(source_answers(get, gb, go, gi, None, None, None, None, r));
                return r;
            },
        };
        let e = get(EVENTS_URL_VAR);
        let ghost ge = e;
        let events_url = text_or(e, DEFAULT_EVENTS_URL);
        let p = get(POLL_INTERVAL_VAR);
        let ghost gp = p;
        let poll = match self::poll_interval_secs(p) {
            Ok(v) => v,
            Err(err) => {
                let r = Err(err);
                assert(source_answers(get, gb, go, gi, ge, gp, None, None, r));
                return r;
            },
        };
        let n = get(BATCH_SIZE_VAR);
        let ghost gn = n;
        let batch = match self::batch_size(n) {
            Ok(v) => v,
            Err(err) => {
                let r = Err(err);
                assert(source_answers(get, gb, go, gi, ge, gp, gn, None, r));
                return r;
            },
        };
        let f = get(STATE_FILE_VAR);
        let ghost gf = f;
        let state_file = text_or(f, DEFAULT_STATE_FILE);
        let r = Ok(
            Config {
                events_url,
                backend_url,
                org_key,
                instance_id,
                poll_interval: secs_to_duration(poll),
                batch_size: batch,
                state_file,
            },
        );
        assert(source_answers(get, gb, go, gi, ge, gp, gn, gf, r));
        r
    }
}

} // verus!
