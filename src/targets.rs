//! Configured probe targets, and the rules that read them from configuration
//! blocks.
use vstd::prelude::*;

use crate::config::{
    block_kind_is, lookup_spec, lookup_string, ConfigBlock, ConfigError, ConfigErrorKind,
    ConfigErrorView, Lookup,
};
use crate::ping::PingMode;
use crate::text::push_char;

verus! {

/// Where a target was declared: the file and the name of its block.
#[derive(Debug, Clone)]
pub struct TargetId {
    pub file_path: String,
    pub name: String,
}

/// One configured monitoring entry.
#[derive(Debug, Clone)]
pub struct Target {
    pub id: TargetId,
    /// The destination as the user wrote it: a domain, an IP or a URL.
    pub value: String,
    pub mode: PingMode,
    /// Probe period, in nanoseconds.
    pub interval_ns: u64,
}

pub struct TargetView {
    pub file_path: Seq<char>,
    pub name: Seq<char>,
    pub value: Seq<char>,
    pub mode: PingMode,
    pub interval_ns: u64,
}

impl View for Target {
    type V = TargetView;

    open spec fn view(&self) -> TargetView {
        TargetView {
            file_path: self.id.file_path@,
            name: self.id.name@,
            value: self.value@,
            mode: self.mode,
            interval_ns: self.interval_ns,
        }
    }
}

pub open spec fn targets_view(ts: Seq<Target>) -> Seq<TargetView> {
    ts.map_values(|t: Target| t@)
}

/// ASCII lower-casing of one character; other characters stay as they are.
pub open spec fn ascii_lower(c: char) -> char {
    if 'A' <= c && c <= 'Z' {
        (((c as u8) + 32) as u8) as char
    } else {
        c
    }
}

pub open spec fn ascii_lower_seq(s: Seq<char>) -> Seq<char> {
    s.map_values(|c: char| ascii_lower(c))
}

/// The mode a configuration names, in any ASCII case, `_` or `-` between
/// the words of the HTTP modes.
pub open spec fn mode_from_name(s: Seq<char>) -> Option<PingMode> {
    let l = ascii_lower_seq(s);
    if l == seq!['i', 'c', 'm', 'p'] {
        Some(PingMode::Icmp)
    } else if l == seq!['t', 'c', 'p'] {
        Some(PingMode::Tcp)
    } else if l == seq!['h', 't', 't', 'p', '-', 'g', 'e', 't'] || l == seq![
        'h',
        't',
        't',
        'p',
        '_',
        'g',
        'e',
        't',
    ] {
        Some(PingMode::HttpGet)
    } else if l == seq!['h', 't', 't', 'p', '-', 'h', 'e', 'a', 'd'] || l == seq![
        'h',
        't',
        't',
        'p',
        '_',
        'h',
        'e',
        'a',
        'd',
    ] {
        Some(PingMode::HttpHead)
    } else {
        None
    }
}

fn lower_char(c: char) -> (r: char)
    ensures
        r == ascii_lower(c),
{
    if 'A' <= c && c <= 'Z' {
        (((c as u8) + 32) as u8) as char
    } else {
        c
    }
}

/// Whether `s`, lower-cased, is `word`.
pub(crate) fn lower_equals(s: &str, word: &str) -> (r: bool)
    ensures
        r == (ascii_lower_seq(s@) == word@),
{
    let n = s.unicode_len();
    if n != word.unicode_len() {
        assert(ascii_lower_seq(s@).len() != word@.len());
        return false;
    }
    let mut i: usize = 0;
    while i < n
        invariant
            n == s@.len(),
            n == word@.len(),
            i <= n,
            forall|j: int| 0 <= j < i ==> ascii_lower(#[trigger] s@[j]) == word@[j],
        decreases n - i,
    {
        if lower_char(s.get_char(i)) != word.get_char(i) {
            assert(ascii_lower_seq(s@)[i as int] != word@[i as int]);
            return false;
        }
        i = i + 1;
    }
    assert(ascii_lower_seq(s@) =~= word@);
    true
}

impl PingMode {
    /// Reads a mode name; see `mode_from_name`.
    pub fn from_str_case_insensitive(value: &str) -> (r: Option<PingMode>)
        ensures
            r == mode_from_name(value@),
    {
        proof {
            reveal_strlit("icmp");
            reveal_strlit("tcp");
            reveal_strlit("http-get");
            reveal_strlit("http_get");
            reveal_strlit("http-head");
            reveal_strlit("http_head");
        }
        if lower_equals(value, "icmp") {
            assert("icmp"@ =~= seq!['i', 'c', 'm', 'p']);
            Some(PingMode::Icmp)
        } else if lower_equals(value, "tcp") {
            assert("icmp"@ =~= seq!['i', 'c', 'm', 'p']);
            assert("tcp"@ =~= seq!['t', 'c', 'p']);
            Some(PingMode::Tcp)
        } else if lower_equals(value, "http-get") || lower_equals(value, "http_get") {
            assert("icmp"@ =~= seq!['i', 'c', 'm', 'p']);
            assert("tcp"@ =~= seq!['t', 'c', 'p']);
            assert("http-get"@ =~= seq!['h', 't', 't', 'p', '-', 'g', 'e', 't']);
            assert("http_get"@ =~= seq!['h', 't', 't', 'p', '_', 'g', 'e', 't']);
            Some(PingMode::HttpGet)
        } else if lower_equals(value, "http-head") || lower_equals(value, "http_head") {
            assert("icmp"@ =~= seq!['i', 'c', 'm', 'p']);
            assert("tcp"@ =~= seq!['t', 'c', 'p']);
            assert("http-get"@ =~= seq!['h', 't', 't', 'p', '-', 'g', 'e', 't']);
            assert("http_get"@ =~= seq!['h', 't', 't', 'p', '_', 'g', 'e', 't']);
            assert("http-head"@ =~= seq!['h', 't', 't', 'p', '-', 'h', 'e', 'a', 'd']);
            assert("http_head"@ =~= seq!['h', 't', 't', 'p', '_', 'h', 'e', 'a', 'd']);
            Some(PingMode::HttpHead)
        } else {
            assert("icmp"@ =~= seq!['i', 'c', 'm', 'p']);
            assert("tcp"@ =~= seq!['t', 'c', 'p']);
            assert("http-get"@ =~= seq!['h', 't', 't', 'p', '-', 'g', 'e', 't']);
            assert("http_get"@ =~= seq!['h', 't', 't', 'p', '_', 'g', 'e', 't']);
            assert("http-head"@ =~= seq!['h', 't', 't', 'p', '-', 'h', 'e', 'a', 'd']);
            assert("http_head"@ =~= seq!['h', 't', 't', 'p', '_', 'h', 'e', 'a', 'd']);
            None
        }
    }
}

/// Unicode's White_Space characters.
pub open spec fn is_white_space(c: char) -> bool {
    let u = c as u32;
    (0x09 <= u && u <= 0x0D) || u == 0x20 || u == 0x85 || u == 0xA0 || u == 0x1680 || (0x2000 <= u
        && u <= 0x200A) || u == 0x2028 || u == 0x2029 || u == 0x202F || u == 0x205F || u == 0x3000
}

fn white_space(c: char) -> (r: bool)
    ensures
        r == is_white_space(c),
{
    let u = c as u32;
    (0x09 <= u && u <= 0x0D) || u == 0x20 || u == 0x85 || u == 0xA0 || u == 0x1680 || (0x2000 <= u
        && u <= 0x200A) || u == 0x2028 || u == 0x2029 || u == 0x202F || u == 0x205F || u == 0x3000
}

pub open spec fn is_label_char(c: char) -> bool {
    ('a' <= c && c <= 'z') || ('A' <= c && c <= 'Z') || ('0' <= c && c <= '9') || c == '_' || c
        == '-'
}

/// The characters of `s` that a label keeps: ASCII letters, digits, `_` and
/// `-` as they are, white space as `_`, nothing of the rest.
pub open spec fn label_chars(s: Seq<char>) -> Seq<char>
    decreases s.len(),
{
    if s.len() == 0 {
        Seq::empty()
    } else {
        let before = label_chars(s.drop_last());
        let c = s.last();
        if is_label_char(c) {
            before.push(c)
        } else if is_white_space(c) {
            before.push('_')
        } else {
            before
        }
    }
}

/// A block name made from free text: `label_chars`, or `t` where nothing is
/// left.
pub open spec fn sanitized_label(s: Seq<char>) -> Seq<char> {
    if label_chars(s).len() == 0 {
        seq!['t']
    } else {
        label_chars(s)
    }
}

pub fn sanitize_label(input: &str) -> (r: String)
    ensures
        r@ == sanitized_label(input@),
{
    let n = input.unicode_len();
    let mut out = String::new();
    let mut i: usize = 0;
    while i < n
        invariant
            n == input@.len(),
            i <= n,
            out@ == label_chars(input@.subrange(0, i as int)),
        decreases n - i,
    {
        let c = input.get_char(i);
        proof {
            let s = input@.subrange(0, i + 1);
            assert(s.drop_last() =~= input@.subrange(0, i as int));
            assert(s.last() == c);
        }
        if ('a' <= c && c <= 'z') || ('A' <= c && c <= 'Z') || ('0' <= c && c <= '9') || c == '_'
            || c == '-' {
            push_char(&mut out, c);
        } else if white_space(c) {
            push_char(&mut out, '_');
        }
        i = i + 1;
    }
    assert(input@.subrange(0, n as int) =~= input@);
    if out.unicode_len() == 0 {
        push_char(&mut out, 't');
        assert(out@ =~= seq!['t']);
    }
    out
}

/// The name that marks a target block.
pub open spec fn target_kind() -> Seq<char> {
    seq!['p', 'i', 'i', 'n', 'g', '_', 't', 'a', 'r', 'g', 'e', 't']
}

pub open spec fn value_key() -> Seq<char> {
    seq!['v', 'a', 'l', 'u', 'e']
}

pub open spec fn mode_key() -> Seq<char> {
    seq!['m', 'o', 'd', 'e']
}

pub open spec fn interval_key() -> Seq<char> {
    seq!['i', 'n', 't', 'e', 'r', 'v', 'a', 'l']
}

/// The duration that humantime reads from a text, as whole seconds and
/// nanoseconds.
pub uninterp spec fn humantime_duration(s: Seq<char>) -> Option<(u64, u32)>;

/// The most decimal digits an interval text may hold.
///
/// humantime panics (in `Duration::new`) when its running total reaches
/// `u64::MAX` seconds and a later span then adds exactly one second of
/// nanoseconds. With at most this many digits, the numbers of all spans add
/// up to less than 10^11, and even counted in years (31 557 600 s each),
/// fractions included, the total stays below 4 * 10^18 seconds: far from
/// `u64::MAX`.
pub const MAX_INTERVAL_DIGITS: usize = 11;

/// How many ASCII digits `s` holds.
pub open spec fn digit_count(s: Seq<char>) -> nat
    decreases s.len(),
{
    if s.len() == 0 {
        0
    } else {
        digit_count(s.drop_last()) + if '0' <= s.last() && s.last() <= '9' { 1nat } else { 0nat }
    }
}

pub fn count_digits(s: &str) -> (r: usize)
    ensures
        r == digit_count(s@),
{
    let n = s.unicode_len();
    let mut count: usize = 0;
    let mut i: usize = 0;
    while i < n
        invariant
            n == s@.len(),
            i <= n,
            count == digit_count(s@.subrange(0, i as int)),
            count <= i,
        decreases n - i,
    {
        let c = s.get_char(i);
        proof {
            let p = s@.subrange(0, i + 1);
            assert(p.drop_last() =~= s@.subrange(0, i as int));
            assert(p.last() == c);
        }
        if '0' <= c && c <= '9' {
            count = count + 1;
        }
        i = i + 1;
    }
    assert(s@.subrange(0, n as int) =~= s@);
    count
}

/// Relies on `humantime::parse_duration`: reads a duration such as `1s` or
/// `2h 37min`. The result depends on the text alone; a `Duration` keeps its
/// nanoseconds under one second. Texts with more digits than
/// `MAX_INTERVAL_DIGITS` are left out: on some of them it panics.
#[verifier::external_body]
fn parse_duration(s: &str) -> (r: Option<(u64, u32)>)
    requires
        digit_count(s@) <= MAX_INTERVAL_DIGITS,
    ensures
        r == humantime_duration(s@),
        r matches Some((_, nanos)) ==> nanos < 1_000_000_000,
{
    humantime::parse_duration(s).ok().map(|d| (d.as_secs(), d.subsec_nanos()))
}

/// A duration in nanoseconds, held at `u64::MAX` where it does not fit.
pub open spec fn duration_ns(secs: u64, nanos: u32) -> u64 {
    let total = secs as int * 1_000_000_000 + nanos as int;
    if total > u64::MAX as int { u64::MAX } else { total as u64 }
}

/// A target interval in nanoseconds, as humantime reads it; none for a text
/// with more than `MAX_INTERVAL_DIGITS` digits.
pub open spec fn interval_from_text(s: Seq<char>) -> Option<u64> {
    if digit_count(s) > MAX_INTERVAL_DIGITS {
        None
    } else {
        match humantime_duration(s) {
            Some((secs, nanos)) => Some(duration_ns(secs, nanos)),
            None => None,
        }
    }
}

/// Converts whole seconds and nanoseconds into nanoseconds, saturating.
pub fn to_nanos(secs: u64, nanos: u32) -> (r: u64)
    ensures
        r == duration_ns(secs, nanos),
{
    if secs > 18_446_744_073 {
        assert(secs as int * 1_000_000_000 >= 18_446_744_074 * 1_000_000_000) by (nonlinear_arith)
            requires
                secs > 18_446_744_073,
        ;
        return u64::MAX;
    }
    assert(secs as int * 1_000_000_000 <= 18_446_744_073 * 1_000_000_000) by (nonlinear_arith)
        requires
            secs <= 18_446_744_073,
    ;
    let whole: u64 = secs * 1_000_000_000;
    if whole > u64::MAX - nanos as u64 {
        u64::MAX
    } else {
        whole + nanos as u64
    }
}

/// A parsed interval of a target, where the text reads as a duration.
pub fn parse_interval(s: &str) -> (r: Option<u64>)
    ensures
        r == interval_from_text(s@),
{
    if count_digits(s) > MAX_INTERVAL_DIGITS {
        return None;
    }
    match parse_duration(s) {
        Some((secs, nanos)) => Some(to_nanos(secs, nanos)),
        None => None,
    }
}

/// What a block of a configuration file says of a target: nothing where it is
/// not a target block, else the target or the first thing wrong with it.
pub open spec fn decode_target_spec(file: Seq<char>, block: ConfigBlock) -> Result<
    Option<TargetView>,
    ConfigErrorView,
> {
    if !block_kind_is(block, target_kind()) || block.labels@.len() < 2 {
        Ok(None)
    } else {
        let name = block.labels@[1]@;
        match lookup_spec(block, value_key()) {
            Err(k) => Err(ConfigErrorView { kind: k, file, block: name, detail: value_key() }),
            Ok(value) => match lookup_spec(block, mode_key()) {
                Err(k) => Err(ConfigErrorView { kind: k, file, block: name, detail: mode_key() }),
                Ok(mode_text) => match mode_from_name(mode_text) {
                    None => Err(ConfigErrorView { kind: ConfigErrorKind::InvalidMode, file, block: name, detail: mode_text }),
                    Some(mode) => match lookup_spec(block, interval_key()) {
                        Err(k) => Err(ConfigErrorView { kind: k, file, block: name, detail: interval_key() }),
                        Ok(interval_text) => match interval_from_text(interval_text) {
                            None => Err(ConfigErrorView { kind: ConfigErrorKind::InvalidInterval, file, block: name, detail: interval_text }),
                            Some(interval_ns) => Ok(
                                Some(TargetView { file_path: file, name, value, mode, interval_ns }),
                            ),
                        },
                    },
                },
            },
        }
    }
}

/// Reads one block as a target; see `decode_target_spec`.
pub fn decode_target(file_path: &str, block: &ConfigBlock) -> (r: Result<Option<Target>, ConfigError>)
    ensures
        decode_target_spec(file_path@, *block) == match r {
            Ok(Some(t)) => Ok(Some(t@)),
            Ok(None) => Ok(None),
            Err(e) => Err(e@),
        },
{
    proof {
        reveal_strlit("piing_target");
        reveal_strlit("value");
        reveal_strlit("mode");
        reveal_strlit("interval");
        assert("piing_target"@ =~= target_kind());
        assert("value"@ =~= value_key());
        assert("mode"@ =~= mode_key());
        assert("interval"@ =~= interval_key());
    }
    if !crate::config::is_block_kind(block, "piing_target") || block.labels.len() < 2 {
        return Ok(None);
    }
    let name = &block.labels[1];
    let value = match lookup_string(block, "value") {
        Lookup::Found(v) => v,
        Lookup::Missing => {
            return Err(ConfigError::new(ConfigErrorKind::MissingAttribute, file_path, name.as_str(), "value"))
        },
        Lookup::NotString => {
            return Err(ConfigError::new(ConfigErrorKind::NotAString, file_path, name.as_str(), "value"))
        },
    };
    let mode_text = match lookup_string(block, "mode") {
        Lookup::Found(v) => v,
        Lookup::Missing => {
            return Err(ConfigError::new(ConfigErrorKind::MissingAttribute, file_path, name.as_str(), "mode"))
        },
        Lookup::NotString => {
            return Err(ConfigError::new(ConfigErrorKind::NotAString, file_path, name.as_str(), "mode"))
        },
    };
    let mode = match PingMode::from_str_case_insensitive(mode_text.as_str()) {
        Some(m) => m,
        None => {
            return Err(ConfigError::new(ConfigErrorKind::InvalidMode, file_path, name.as_str(), mode_text.as_str()))
        },
    };
    let interval_text = match lookup_string(block, "interval") {
        Lookup::Found(v) => v,
        Lookup::Missing => {
            return Err(ConfigError::new(ConfigErrorKind::MissingAttribute, file_path, name.as_str(), "interval"))
        },
        Lookup::NotString => {
            return Err(ConfigError::new(ConfigErrorKind::NotAString, file_path, name.as_str(), "interval"))
        },
    };
    let interval_ns = match parse_interval(interval_text.as_str()) {
        Some(ns) => ns,
        None => {
            return Err(ConfigError::new(ConfigErrorKind::InvalidInterval, file_path, name.as_str(), interval_text.as_str()))
        },
    };
    Ok(
        Some(
            Target {
                id: TargetId { file_path: file_path.to_owned(), name: name.as_str().to_owned() },
                value,
                mode,
                interval_ns,
            },
        ),
    )
}

/// The targets that a file's blocks declare, in order, or the first error.
pub open spec fn decode_targets_spec(file: Seq<char>, blocks: Seq<ConfigBlock>) -> Result<
    Seq<TargetView>,
    ConfigErrorView,
>
    decreases blocks.len(),
{
    if blocks.len() == 0 {
        Ok(Seq::empty())
    } else {
        match decode_targets_spec(file, blocks.drop_last()) {
            Err(e) => Err(e),
            Ok(ts) => match decode_target_spec(file, blocks.last()) {
                Err(e) => Err(e),
                Ok(None) => Ok(ts),
                Ok(Some(t)) => Ok(ts.push(t)),
            },
        }
    }
}

proof fn lemma_decode_targets_error_stays(file: Seq<char>, blocks: Seq<ConfigBlock>, k: int)
    requires
        0 <= k <= blocks.len(),
        decode_targets_spec(file, blocks.subrange(0, k)) is Err,
    ensures
        decode_targets_spec(file, blocks) == decode_targets_spec(file, blocks.subrange(0, k)),
    decreases blocks.len() - k,
{
    if k < blocks.len() {
        let next = blocks.subrange(0, k + 1);
        assert(next.drop_last() =~= blocks.subrange(0, k));
        lemma_decode_targets_error_stays(file, blocks, k + 1);
    } else {
        assert(blocks.subrange(0, k) =~= blocks);
    }
}

/// Reads every target a configuration file declares.
pub fn decode_targets(file_path: &str, blocks: &[ConfigBlock]) -> (r: Result<Vec<Target>, ConfigError>)
    ensures
        decode_targets_spec(file_path@, blocks@) == match r {
            Ok(ts) => Ok(targets_view(ts@)),
            Err(e) => Err(e@),
        },
{
    let mut out: Vec<Target> = Vec::new();
    let mut i: usize = 0;
    assert(blocks@.subrange(0, 0) =~= Seq::<ConfigBlock>::empty());
    assert(targets_view(out@) =~= Seq::<TargetView>::empty());
    while i < blocks.len()
        invariant
            i <= blocks@.len(),
            decode_targets_spec(file_path@, blocks@.subrange(0, i as int)) == Ok::<
                Seq<TargetView>,
                ConfigErrorView,
            >(targets_view(out@)),
        decreases blocks@.len() - i,
    {
        let ghost before = out@;
        proof {
            let s = blocks@.subrange(0, i + 1);
            assert(s.drop_last() =~= blocks@.subrange(0, i as int));
            assert(s.last() == blocks@[i as int]);
        }
        match decode_target(file_path, &blocks[i]) {
            Err(e) => {
                proof {
                    lemma_decode_targets_error_stays(file_path@, blocks@, i + 1);
                }
                return Err(e);
            },
            Ok(None) => {},
            Ok(Some(t)) => {
                out.push(t);
                assert(targets_view(out@) =~= targets_view(before).push(t@));
            },
        }
        i = i + 1;
    }
    assert(blocks@.subrange(0, blocks@.len() as int) =~= blocks@);
    Ok(out)
}

} // verus!
