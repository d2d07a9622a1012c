//! Five-layer wisdom personas: data model, cadence caps, and the parsers of
//! the persona files (`theory.md`, `voice.md`, situation cards).

use vstd::prelude::*;

use crate::markdown::{
    find_section, pair_views, parse_list_section, section_body, sections, split_sections,
    str_views, string_views, list_items,
};
use crate::text::{
    starts_with_str,
    chars_of, contains, contains_exec, find, find_exec, is_digit, lines, lines_vec, lowercase,
    owned, seq_eq, slice_vec, str_eq, decimal, push_decimal, starts_with, starts_with_exec, string_of, to_lowercase_vec, trim,
    trim_start_matches, trim_start_matches_str, trim_vec, views,
};

verus! {

// ---------------------------------------------------------------------------
// Data
// ---------------------------------------------------------------------------

/// Pressure vector of a situation: thirteen 0–10 axes plus a cost-asymmetry label.
#[derive(Debug, Clone)]
pub struct PressureFingerprint {
    pub time: u8,
    pub resource: u8,
    pub survival: u8,
    pub competition: u8,
    pub social: u8,
    pub uncertainty: u8,
    pub identity: u8,
    pub emotional: u8,
    pub moral: u8,
    pub face: u8,
    pub isolation: u8,
    pub irreversibility: u8,
    pub info_completeness: u8,
    pub cost_asymmetry: String,
}

impl PressureFingerprint {
    /// All axes zero and an empty label.
    pub open spec fn is_zero(&self) -> bool {
        &&& self.time == 0
        &&& self.resource == 0
        &&& self.survival == 0
        &&& self.competition == 0
        &&& self.social == 0
        &&& self.uncertainty == 0
        &&& self.identity == 0
        &&& self.emotional == 0
        &&& self.moral == 0
        &&& self.face == 0
        &&& self.isolation == 0
        &&& self.irreversibility == 0
        &&& self.info_completeness == 0
        &&& self.cost_asymmetry@.len() == 0
    }

    /// The weight of the cost-asymmetry label: `upside` 1, `downside` -1,
    /// `extreme` 2, anything else 0.
    pub open spec fn asymmetry_weight(label: Seq<char>) -> i64 {
        if label == "upside"@ || label == "upside_high"@ {
            1
        } else if label == "downside"@ || label == "downside_high"@ {
            -1i64
        } else if label == "extreme"@ {
            2
        } else {
            0
        }
    }

    /// The fingerprint as a vector: the thirteen axes in declaration order,
    /// then the asymmetry weight.
    pub open spec fn coordinates(&self) -> Seq<i64> {
        seq![
            self.time as i64,
            self.resource as i64,
            self.survival as i64,
            self.competition as i64,
            self.social as i64,
            self.uncertainty as i64,
            self.identity as i64,
            self.emotional as i64,
            self.moral as i64,
            self.face as i64,
            self.isolation as i64,
            self.irreversibility as i64,
            self.info_completeness as i64,
            Self::asymmetry_weight(self.cost_asymmetry@),
        ]
    }

    /// The fingerprint's coordinates (see `coordinates`), which the card
    /// ranking compares by cosine similarity.
    pub fn to_vec(&self) -> (r: Vec<i64>)
        ensures
            r@ == self.coordinates(),
    {
        let l = self.cost_asymmetry.as_str();
        let asym: i64 = if crate::text::str_eq(l, "upside") || crate::text::str_eq(l, "upside_high") {
            1
        } else if crate::text::str_eq(l, "downside") || crate::text::str_eq(l, "downside_high") {
            -1
        } else if crate::text::str_eq(l, "extreme") {
            2
        } else {
            0
        };
        let r: Vec<i64> = vec![
            self.time as i64,
            self.resource as i64,
            self.survival as i64,
            self.competition as i64,
            self.social as i64,
            self.uncertainty as i64,
            self.identity as i64,
            self.emotional as i64,
            self.moral as i64,
            self.face as i64,
            self.isolation as i64,
            self.irreversibility as i64,
            self.info_completeness as i64,
            asym,
        ];
        assert(r@ =~= self.coordinates());
        r
    }
}

impl Default for PressureFingerprint {
    fn default() -> (fp: Self)
        ensures
            fp.is_zero(),
    {
        PressureFingerprint {
            time: 0,
            resource: 0,
            survival: 0,
            competition: 0,
            social: 0,
            uncertainty: 0,
            identity: 0,
            emotional: 0,
            moral: 0,
            face: 0,
            isolation: 0,
            irreversibility: 0,
            info_completeness: 0,
            cost_asymmetry: String::new(),
        }
    }
}

/// A historical decision card with a transferable pattern.
#[derive(Debug, Clone)]
pub struct SituationCard {
    pub id: String,
    pub title: String,
    pub situation: String,
    pub contradiction: String,
    pub reasoning: String,
    pub conclusion: String,
    pub abstract_form: String,
    pub pressure: PressureFingerprint,
}

/// Voice texture: how the persona speaks, and what it must not say.
#[derive(Debug, Clone)]
pub struct VoiceTexture {
    pub first_person_markers: Vec<String>,
    pub metaphor_domains: Vec<String>,
    pub sentence_patterns: Vec<String>,
    pub forbidden_patterns: Vec<String>,
}

impl Default for VoiceTexture {
    /// No voice lists at all.
    fn default() -> (v: Self)
        ensures
            v.first_person_markers@.len() == 0,
            v.metaphor_domains@.len() == 0,
            v.sentence_patterns@.len() == 0,
            v.forbidden_patterns@.len() == 0,
    {
        VoiceTexture {
            first_person_markers: Vec::new(),
            metaphor_domains: Vec::new(),
            sentence_patterns: Vec::new(),
            forbidden_patterns: Vec::new(),
        }
    }
}

impl VoiceTexture {
    /// Whether all four lists are empty.
    pub fn is_empty(&self) -> (r: bool)
        ensures
            r == (self.first_person_markers@.len() == 0 && self.metaphor_domains@.len() == 0
                && self.sentence_patterns@.len() == 0 && self.forbidden_patterns@.len() == 0),
    {
        self.first_person_markers.len() == 0 && self.metaphor_domains.len() == 0
            && self.sentence_patterns.len() == 0 && self.forbidden_patterns.len() == 0
    }
}

/// Cadence bucket from `voice.md`; drives per-step token caps.
#[derive(Debug, Clone, Copy, PartialEq, Eq, Structural)]
pub enum Cadence {
    Terse,
    Balanced,
    Discursive,
    /// No `## Cadence` heading: callers use the step's default cap.
    Unset,
}

impl Default for Cadence {
    fn default() -> (c: Self)
        ensures
            c == Cadence::Unset,
    {
        Cadence::Unset
    }
}

impl Cadence {
    /// max_tokens for Step 3 fact-finding questions.
    #[verifier::allow_in_spec]
    pub fn max_tokens_step3(self) -> u32
        returns
            (match self {
                Cadence::Terse => 200u32,
                Cadence::Balanced => 250,
                Cadence::Discursive => 300,
                Cadence::Unset => 250,
            }),
    {
        match self {
            Cadence::Terse => 200,
            Cadence::Balanced => 250,
            Cadence::Discursive => 300,
            Cadence::Unset => 250,
        }
    }

    /// max_tokens for Step 4 opinions.
    #[verifier::allow_in_spec]
    pub fn max_tokens_step4(self) -> u32
        returns
            (match self {
                Cadence::Terse => 230u32,
                Cadence::Balanced => 280,
                Cadence::Discursive => 360,
                Cadence::Unset => 280,
            }),
    {
        match self {
            Cadence::Terse => 230,
            Cadence::Balanced => 280,
            Cadence::Discursive => 360,
            Cadence::Unset => 280,
        }
    }

    /// max_tokens for Step 6 round-1 debate.
    #[verifier::allow_in_spec]
    pub fn max_tokens_step6(self) -> u32
        returns
            (match self {
                Cadence::Terse => 130u32,
                Cadence::Balanced => 280,
                Cadence::Discursive => 500,
                Cadence::Unset => 350,
            }),
    {
        match self {
            Cadence::Terse => 130,
            Cadence::Balanced => 280,
            Cadence::Discursive => 500,
            Cadence::Unset => 350,
        }
    }

    /// max_tokens for Step 6 round-2 reactions of the middle ground.
    #[verifier::allow_in_spec]
    pub fn max_tokens_step6_r2(self) -> u32
        returns
            (match self {
                Cadence::Terse => 150u32,
                Cadence::Balanced => 320,
                Cadence::Discursive => 550,
                Cadence::Unset => 400,
            }),
    {
        match self {
            Cadence::Terse => 150,
            Cadence::Balanced => 320,
            Cadence::Discursive => 550,
            Cadence::Unset => 400,
        }
    }

    /// max_tokens for Step 8 harvest evaluations.
    #[verifier::allow_in_spec]
    pub fn max_tokens_step8(self) -> u32
        returns
            (match self {
                Cadence::Terse => 130u32,
                Cadence::Balanced => 250,
                Cadence::Discursive => 450,
                Cadence::Unset => 300,
            }),
    {
        match self {
            Cadence::Terse => 130,
            Cadence::Balanced => 250,
            Cadence::Discursive => 450,
            Cadence::Unset => 300,
        }
    }

    /// max_tokens for the Step 3 sequential refine endpoint.
    #[verifier::allow_in_spec]
    pub fn max_tokens_refine(self) -> u32
        returns
            (match self {
                Cadence::Terse => 150u32,
                Cadence::Balanced => 200,
                Cadence::Discursive => 250,
                Cadence::Unset => 200,
            }),
    {
        match self {
            Cadence::Terse => 150,
            Cadence::Balanced => 200,
            Cadence::Discursive => 250,
            Cadence::Unset => 200,
        }
    }
}

/// Terser cadences never get a larger cap than more discursive ones, at any step.
pub proof fn lemma_cadence_caps_ordered()
    ensures
        Cadence::Terse.max_tokens_step3() <= Cadence::Balanced.max_tokens_step3()
            <= Cadence::Discursive.max_tokens_step3(),
        Cadence::Terse.max_tokens_step4() <= Cadence::Balanced.max_tokens_step4()
            <= Cadence::Discursive.max_tokens_step4(),
        Cadence::Terse.max_tokens_step6() <= Cadence::Balanced.max_tokens_step6()
            <= Cadence::Discursive.max_tokens_step6(),
        Cadence::Terse.max_tokens_step6_r2() <= Cadence::Balanced.max_tokens_step6_r2()
            <= Cadence::Discursive.max_tokens_step6_r2(),
        Cadence::Terse.max_tokens_step8() <= Cadence::Balanced.max_tokens_step8()
            <= Cadence::Discursive.max_tokens_step8(),
        Cadence::Terse.max_tokens_refine() <= Cadence::Balanced.max_tokens_refine()
            <= Cadence::Discursive.max_tokens_refine(),
{
}

// ---------------------------------------------------------------------------
// Numbers in persona files
// ---------------------------------------------------------------------------

/// Value of a run of ASCII digits.
pub open spec fn digits_value(s: Seq<char>) -> nat
    decreases s.len(),
{
    if s.len() == 0 {
        0
    } else {
        digits_value(s.drop_last()) * 10 + ((s.last() as u32) - ('0' as u32)) as nat
    }
}

/// Every character is an ASCII digit.
pub open spec fn all_digits(s: Seq<char>) -> bool {
    forall|i: int| 0 <= i < s.len() ==> is_digit(#[trigger] s[i])
}

/// `str::parse::<u8>`: an optional `+`, then at least one digit, value at most 255.
pub open spec fn parse_u8(s: Seq<char>) -> Option<u8> {
    let d = if s.len() > 0 && s[0] == '+' {
        s.drop_first()
    } else {
        s
    };
    if d.len() > 0 && all_digits(d) && digits_value(d) <= 255 {
        Some(digits_value(d) as u8)
    } else {
        None
    }
}

/// `val.parse::<u8>()` on the text held by `s`.
pub fn parse_u8_exec(s: &[char]) -> (r: Option<u8>)
    ensures
        r == parse_u8(s@),
{
    let start: usize = if s.len() > 0 && s[0] == '+' {
        1
    } else {
        0
    };
    let ghost d = if s@.len() > 0 && s@[0] == '+' {
        s@.drop_first()
    } else {
        s@
    };
    assert(d == s@.subrange(start as int, s@.len() as int));
    if start >= s.len() {
        return None;
    }
    let mut v: u32 = 0;
    let mut i = start;
    while i < s.len()
        invariant
            start <= i <= s@.len(),
            d == s@.subrange(start as int, s@.len() as int),
            d == (if s@.len() > 0 && s@[0] == '+' {
                s@.drop_first()
            } else {
                s@
            }),
            all_digits(s@.subrange(start as int, i as int)),
            v as nat == if digits_value(s@.subrange(start as int, i as int)) < 256 {
                digits_value(s@.subrange(start as int, i as int))
            } else {
                256
            },
        decreases s.len() - i,
    {
        let c = s[i];
        if !('0' <= c && c <= '9') {
            assert(d[i - start] == c);
            assert(!is_digit(d[i - start]));
            return None;
        }
        let ghost pre = s@.subrange(start as int, i as int);
        let ghost nxt = s@.subrange(start as int, i + 1);
        assert(nxt.drop_last() == pre);
        let dig = (c as u32) - ('0' as u32);
        let nv = v * 10 + dig;
        v = if nv < 256 {
            nv
        } else {
            256
        };
        assert(all_digits(nxt)) by {
            assert forall|k: int| 0 <= k < nxt.len() implies is_digit(#[trigger] nxt[k]) by {
                if k < pre.len() {
                    assert(nxt[k] == pre[k]);
                }
            }
        }
        i = i + 1;
    }
    assert(s@.subrange(start as int, i as int) == d);
    if v <= 255 {
        Some(v as u8)
    } else {
        None
    }
}

// ---------------------------------------------------------------------------
// Pressure section
// ---------------------------------------------------------------------------

/// `key: value` of a trimmed line, both sides trimmed.
pub open spec fn line_kv(line: Seq<char>) -> Option<(Seq<char>, Seq<char>)> {
    let l = trim(line);
    match find(l, ":"@) {
        Some(k) => Some((trim(l.take(k)), trim(l.skip(k + 1)))),
        None => None,
    }
}

/// Which fingerprint field a key sets: 0..=12 the numeric axes in declaration
/// order, 13 the cost-asymmetry label, -1 none.
pub open spec fn key_class(k: Seq<char>) -> int {
    if k == "time"@ || k == "time_pressure"@ {
        0
    } else if k == "resource"@ || k == "resource_pressure"@ {
        1
    } else if k == "survival"@ || k == "survival_pressure"@ {
        2
    } else if k == "competition"@ || k == "competition_pressure"@ {
        3
    } else if k == "social"@ || k == "social_pressure"@ {
        4
    } else if k == "uncertainty"@ {
        5
    } else if k == "identity"@ || k == "identity_pressure"@ {
        6
    } else if k == "emotional"@ || k == "emotional_pressure"@ {
        7
    } else if k == "moral"@ || k == "moral_pressure"@ {
        8
    } else if k == "face"@ || k == "face_pressure"@ {
        9
    } else if k == "isolation"@ || k == "isolation_pressure"@ {
        10
    } else if k == "irreversibility"@ {
        11
    } else if k == "info_completeness"@ {
        12
    } else if k == "cost_asymmetry"@ {
        13
    } else {
        -1
    }
}

/// Value on the last of the first `n` lines whose key sets field `c`.
pub open spec fn last_value(ls: Seq<Seq<char>>, n: int, c: int) -> Option<Seq<char>>
    decreases n,
{
    if n <= 0 || n > ls.len() {
        None
    } else {
        match line_kv(ls[n - 1]) {
            Some(kv) => if key_class(kv.0) == c {
                Some(kv.1)
            } else {
                last_value(ls, n - 1, c)
            },
            None => last_value(ls, n - 1, c),
        }
    }
}

/// A numeric axis: the last assignment wins; unparsable values count as 0.
pub open spec fn axis_value(ls: Seq<Seq<char>>, n: int, c: int) -> u8 {
    match last_value(ls, n, c) {
        Some(v) => match parse_u8(v) {
            Some(x) => x,
            None => 0,
        },
        None => 0,
    }
}

/// The label axis: the last assignment wins; empty when none.
pub open spec fn label_value(ls: Seq<Seq<char>>, n: int) -> Seq<char> {
    match last_value(ls, n, 13) {
        Some(v) => v,
        None => Seq::empty(),
    }
}

/// The fingerprint that the first `n` lines of `ls` describe.
pub open spec fn pressure_of(fp: PressureFingerprint, ls: Seq<Seq<char>>, n: int) -> bool {
    &&& fp.time == axis_value(ls, n, 0)
    &&& fp.resource == axis_value(ls, n, 1)
    &&& fp.survival == axis_value(ls, n, 2)
    &&& fp.competition == axis_value(ls, n, 3)
    &&& fp.social == axis_value(ls, n, 4)
    &&& fp.uncertainty == axis_value(ls, n, 5)
    &&& fp.identity == axis_value(ls, n, 6)
    &&& fp.emotional == axis_value(ls, n, 7)
    &&& fp.moral == axis_value(ls, n, 8)
    &&& fp.face == axis_value(ls, n, 9)
    &&& fp.isolation == axis_value(ls, n, 10)
    &&& fp.irreversibility == axis_value(ls, n, 11)
    &&& fp.info_completeness == axis_value(ls, n, 12)
    &&& fp.cost_asymmetry@ == label_value(ls, n)
}

/// Splits a line into trimmed `key` and `value` at its first `:`.
fn split_kv(line: &[char]) -> (r: Option<(Vec<char>, Vec<char>)>)
    ensures
        match line_kv(line@) {
            Some(kv) => r matches Some(p) && p.0@ == kv.0 && p.1@ == kv.1,
            None => r is None,
        },
{
    let l = trim_vec(line);
    let colon = chars_of(":");
    match find_exec(&l, &colon) {
        None => None,
        Some(k) => {
            proof {
                crate::text::lemma_find_from(l@, ":"@, 0);
            }
            assert(k + colon.len() <= l.len());
            assert(colon.len() == 1) by {
                reveal_strlit(":");
            }
            let key = slice_vec(&l, 0, k);
            let val = slice_vec(&l, k + 1, l.len());
            Some((trim_vec(&key), trim_vec(&val)))
        },
    }
}

fn is_key(k: &[char], a: &str) -> (r: bool)
    ensures
        r == (k@ == a@),
{
    seq_eq(k, &chars_of(a))
}

/// `key_class` of a key.
fn key_class_exec(k: &[char]) -> (r: i8)
    ensures
        r == key_class(k@),
{
    if is_key(k, "time") || is_key(k, "time_pressure") {
        0
    } else if is_key(k, "resource") || is_key(k, "resource_pressure") {
        1
    } else if is_key(k, "survival") || is_key(k, "survival_pressure") {
        2
    } else if is_key(k, "competition") || is_key(k, "competition_pressure") {
        3
    } else if is_key(k, "social") || is_key(k, "social_pressure") {
        4
    } else if is_key(k, "uncertainty") {
        5
    } else if is_key(k, "identity") || is_key(k, "identity_pressure") {
        6
    } else if is_key(k, "emotional") || is_key(k, "emotional_pressure") {
        7
    } else if is_key(k, "moral") || is_key(k, "moral_pressure") {
        8
    } else if is_key(k, "face") || is_key(k, "face_pressure") {
        9
    } else if is_key(k, "isolation") || is_key(k, "isolation_pressure") {
        10
    } else if is_key(k, "irreversibility") {
        11
    } else if is_key(k, "info_completeness") {
        12
    } else if is_key(k, "cost_asymmetry") {
        13
    } else {
        -1
    }
}

/// Parse the `Pressure` section of a situation card into a fingerprint:
/// `key: value` lines, the last assignment of a field wins.
#[verifier::rlimit(50)]
#[verifier::spinoff_prover]
pub fn parse_pressure_section(sections: &[(String, String)]) -> (fp: PressureFingerprint)
    ensures
        pressure_of(
            fp,
            lines(section_body(pair_views(sections@), seq!["Pressure"@, "压力指纹"@])),
            lines(section_body(pair_views(sections@), seq!["Pressure"@, "压力指纹"@])).len() as int,
        ),
{
    let kws: Vec<&str> = vec!["Pressure", "压力指纹"];
    assert(str_views(kws@) =~= seq!["Pressure"@, "压力指纹"@]);
    let body = find_section(sections, &kws);
    let bc = chars_of(body.as_str());
    let ls = lines_vec(&bc);
    let ghost lv = views(ls@);
    let mut fp = PressureFingerprint::default();
    assert(fp.cost_asymmetry@ =~= Seq::<char>::empty());
    let mut i: usize = 0;
    while i < ls.len()
        invariant
            i <= ls@.len(),
            lv == views(ls@),
            lv == lines(bc@),
            pressure_of(fp, lv, i as int),
        decreases ls.len() - i,
    {
        assert(lv[i as int] == ls@[i as int]@);
        match split_kv(&ls[i]) {
            None => {},
            Some(kv) => {
                let key = kv.0;
                let val = kv.1;
                let n = match parse_u8_exec(&val) {
                    Some(x) => x,
                    None => 0,
                };
                let c = key_class_exec(&key);
                if c == 0 {
                    fp.time = n;
                } else if c == 1 {
                    fp.resource = n;
                } else if c == 2 {
                    fp.survival = n;
                } else if c == 3 {
                    fp.competition = n;
                } else if c == 4 {
                    fp.social = n;
                } else if c == 5 {
                    fp.uncertainty = n;
                } else if c == 6 {
                    fp.identity = n;
                } else if c == 7 {
                    fp.emotional = n;
                } else if c == 8 {
                    fp.moral = n;
                } else if c == 9 {
                    fp.face = n;
                } else if c == 10 {
                    fp.isolation = n;
                } else if c == 11 {
                    fp.irreversibility = n;
                } else if c == 12 {
                    fp.info_completeness = n;
                } else if c == 13 {
                    fp.cost_asymmetry = string_of(&val);
                }
            },
        }
        i = i + 1;
    }
    fp
}

// ---------------------------------------------------------------------------
// theory.md, voice.md, situation cards
// ---------------------------------------------------------------------------

pub open spec fn kw_worldview() -> Seq<Seq<char>> { seq!["世界观"@, "Worldview"@] }
pub open spec fn kw_philosophy() -> Seq<Seq<char>> { seq!["人生观"@, "Life Philosophy"@] }
pub open spec fn kw_values() -> Seq<Seq<char>> { seq!["价值观"@, "Values"@] }
pub open spec fn kw_methodology() -> Seq<Seq<char>> { seq!["方法论"@, "Methodology"@, "思考方式"@] }

/// Parse theory.md into the worldview, life philosophy, values and
/// methodology layers, found by their `## ` headers.
pub fn parse_theory(content: &str) -> (r: (String, String, String, String))
    ensures
        r.0@ == section_body(sections(content@), kw_worldview()),
        r.1@ == section_body(sections(content@), kw_philosophy()),
        r.2@ == section_body(sections(content@), kw_values()),
        r.3@ == section_body(sections(content@), kw_methodology()),
{
    let secs = split_sections(content);
    let k1: Vec<&str> = vec!["世界观", "Worldview"];
    let k2: Vec<&str> = vec!["人生观", "Life Philosophy"];
    let k3: Vec<&str> = vec!["价值观", "Values"];
    let k4: Vec<&str> = vec!["方法论", "Methodology", "思考方式"];
    assert(str_views(k1@) =~= kw_worldview());
    assert(str_views(k2@) =~= kw_philosophy());
    assert(str_views(k3@) =~= kw_values());
    assert(str_views(k4@) =~= kw_methodology());
    let worldview = find_section(&secs, &k1);
    let philosophy = find_section(&secs, &k2);
    let values = find_section(&secs, &k3);
    let methodology = find_section(&secs, &k4);
    (worldview, philosophy, values, methodology)
}

pub open spec fn kw_first_person() -> Seq<Seq<char>> { seq!["First-Person Markers"@, "第一人称"@] }
pub open spec fn kw_metaphor() -> Seq<Seq<char>> { seq!["Metaphor Domains"@, "比喻领域"@] }
pub open spec fn kw_sentence() -> Seq<Seq<char>> { seq!["Sentence Patterns"@, "句式"@] }
pub open spec fn kw_forbidden() -> Seq<Seq<char>> { seq!["Forbidden Patterns"@, "禁止模式"@] }

/// Parse voice.md into its four voice lists.
pub fn parse_voice(content: &str) -> (v: VoiceTexture)
    ensures
        string_views(v.first_person_markers@) == list_items(
            section_body(sections(content@), kw_first_person()),
        ),
        string_views(v.metaphor_domains@) == list_items(
            section_body(sections(content@), kw_metaphor()),
        ),
        string_views(v.sentence_patterns@) == list_items(
            section_body(sections(content@), kw_sentence()),
        ),
        string_views(v.forbidden_patterns@) == list_items(
            section_body(sections(content@), kw_forbidden()),
        ),
{
    let secs = split_sections(content);
    let k1: Vec<&str> = vec!["First-Person Markers", "第一人称"];
    let k2: Vec<&str> = vec!["Metaphor Domains", "比喻领域"];
    let k3: Vec<&str> = vec!["Sentence Patterns", "句式"];
    let k4: Vec<&str> = vec!["Forbidden Patterns", "禁止模式"];
    assert(str_views(k1@) =~= kw_first_person());
    assert(str_views(k2@) =~= kw_metaphor());
    assert(str_views(k3@) =~= kw_sentence());
    assert(str_views(k4@) =~= kw_forbidden());
    VoiceTexture {
        first_person_markers: parse_list_section(&secs, &k1),
        metaphor_domains: parse_list_section(&secs, &k2),
        sentence_patterns: parse_list_section(&secs, &k3),
        forbidden_patterns: parse_list_section(&secs, &k4),
    }
}

/// Title of a situation card: the first `# ` line, without the marker.
pub open spec fn card_title_from(ls: Seq<Seq<char>>, i: int) -> Option<Seq<char>>
    decreases ls.len() - i,
{
    if i < 0 || i >= ls.len() {
        None
    } else if starts_with(ls[i], "# "@) {
        Some(trim(trim_start_matches(ls[i], "# "@)))
    } else {
        card_title_from(ls, i + 1)
    }
}

pub open spec fn kw_situation() -> Seq<Seq<char>> { seq!["Situation"@, "情境"@] }
pub open spec fn kw_contradiction() -> Seq<Seq<char>> { seq!["Contradiction"@, "矛盾"@] }
pub open spec fn kw_reasoning() -> Seq<Seq<char>> { seq!["Reasoning"@, "推理"@] }
pub open spec fn kw_conclusion() -> Seq<Seq<char>> { seq!["Conclusion"@, "结论"@] }
pub open spec fn kw_abstract() -> Seq<Seq<char>> { seq!["Abstract Form"@, "抽象形式"@, "可迁移模式"@] }

/// The card that a markdown file describes.
pub open spec fn card_of(c: SituationCard, content: Seq<char>, id: Seq<char>) -> bool {
    let secs = sections(content);
    let ls = lines(section_body(secs, seq!["Pressure"@, "压力指纹"@]));
    &&& c.id@ == id
    &&& c.title@ == match card_title_from(lines(content), 0) {
        Some(t) => t,
        None => id,
    }
    &&& c.situation@ == section_body(secs, kw_situation())
    &&& c.contradiction@ == section_body(secs, kw_contradiction())
    &&& c.reasoning@ == section_body(secs, kw_reasoning())
    &&& c.conclusion@ == section_body(secs, kw_conclusion())
    &&& c.abstract_form@ == section_body(secs, kw_abstract())
    &&& pressure_of(c.pressure, ls, ls.len() as int)
}

fn card_title(content: &str) -> (r: Option<String>)
    ensures
        match card_title_from(lines(content@), 0) {
            Some(t) => r matches Some(x) && x@ == t,
            None => r is None,
        },
{
    let cs = chars_of(content);
    let ls = lines_vec(&cs);
    let mut i: usize = 0;
    while i < ls.len()
        invariant
            i <= ls@.len(),
            views(ls@) == lines(content@),
            card_title_from(lines(content@), 0) == card_title_from(lines(content@), i as int),
        decreases ls.len() - i,
    {
        assert(views(ls@)[i as int] == ls@[i as int]@);
        if starts_with_str(&ls[i], "# ") {
            let t = trim_start_matches_str(&ls[i], "# ");
            let t2 = trim_vec(&t);
            return Some(string_of(&t2));
        }
        i = i + 1;
    }
    None
}

/// Parse a single situation card from markdown.
pub fn parse_situation_card(content: &str, id: &str) -> (card: SituationCard)
    ensures
        card_of(card, content@, id@),
{
    let secs = split_sections(content);
    let title = card_title(content);
    let title = match title {
        Some(t) => t,
        None => owned(id),
    };
    let k1: Vec<&str> = vec!["Situation", "情境"];
    let k2: Vec<&str> = vec!["Contradiction", "矛盾"];
    let k3: Vec<&str> = vec!["Reasoning", "推理"];
    let k4: Vec<&str> = vec!["Conclusion", "结论"];
    let k5: Vec<&str> = vec!["Abstract Form", "抽象形式", "可迁移模式"];
    assert(str_views(k1@) =~= kw_situation());
    assert(str_views(k2@) =~= kw_contradiction());
    assert(str_views(k3@) =~= kw_reasoning());
    assert(str_views(k4@) =~= kw_conclusion());
    assert(str_views(k5@) =~= kw_abstract());
    SituationCard {
        id: owned(id),
        title,
        situation: find_section(&secs, &k1),
        contradiction: find_section(&secs, &k2),
        reasoning: find_section(&secs, &k3),
        conclusion: find_section(&secs, &k4),
        abstract_form: find_section(&secs, &k5),
        pressure: parse_pressure_section(&secs),
    }
}

pub open spec fn kw_audit() -> Seq<Seq<char>> {
    seq!["言行一致性"@, "Consistency Audit"@, "consistency audit"@]
}

/// The consistency-audit section of theory.md, when present and not blank.
pub open spec fn audit_section(content: Seq<char>) -> Option<Seq<char>> {
    let body = section_body(sections(content), kw_audit());
    if trim(body).len() == 0 {
        None
    } else {
        Some(body)
    }
}

/// Pull the `## 言行一致性 / Consistency Audit` section body out of a
/// theory.md blob; None when absent or blank.
pub fn parse_consistency_audit_section(content: &str) -> (r: Option<String>)
    ensures
        match audit_section(content@) {
            Some(b) => r matches Some(s) && s@ == b,
            None => r is None,
        },
{
    let secs = split_sections(content);
    let k: Vec<&str> = vec!["言行一致性", "Consistency Audit", "consistency audit"];
    assert(str_views(k@) =~= kw_audit());
    let body = find_section(&secs, &k);
    let bc = chars_of(body.as_str());
    if crate::text::is_blank(&bc) {
        None
    } else {
        Some(body)
    }
}

/// The cadence named by the first fitting heading at or after line `i`: a
/// `##` line whose lowercase form mentions `cadence` and one of the buckets.
pub open spec fn cadence_from(ls: Seq<Seq<char>>, i: int) -> Cadence
    decreases ls.len() - i,
{
    if i < 0 || i >= ls.len() {
        Cadence::Unset
    } else {
        let l = trim(ls[i]);
        let lower = lowercase(l);
        if starts_with(l, "##"@) && contains(lower, "cadence"@) {
            if contains(lower, "terse"@) {
                Cadence::Terse
            } else if contains(lower, "balanced"@) {
                Cadence::Balanced
            } else if contains(lower, "discursive"@) {
                Cadence::Discursive
            } else {
                cadence_from(ls, i + 1)
            }
        } else {
            cadence_from(ls, i + 1)
        }
    }
}

/// Parse the `## Cadence · {bucket}` heading of voice.md (case-insensitive);
/// `Unset` when there is none.
pub fn parse_cadence(content: &str) -> (c: Cadence)
    ensures
        c == cadence_from(lines(content@), 0),
{
    let cs = chars_of(content);
    let ls = lines_vec(&cs);
    let mut i: usize = 0;
    while i < ls.len()
        invariant
            i <= ls@.len(),
            views(ls@) == lines(content@),
            cadence_from(lines(content@), 0) == cadence_from(lines(content@), i as int),
        decreases ls.len() - i,
    {
        assert(views(ls@)[i as int] == ls@[i as int]@);
        let l = trim_vec(&ls[i]);
        if starts_with_str(&l, "##") {
            let lower = to_lowercase_vec(&l);
            if crate::text::contains_str(&lower, "cadence") {
                if crate::text::contains_str(&lower, "terse") {
                    return Cadence::Terse;
                }
                if crate::text::contains_str(&lower, "balanced") {
                    return Cadence::Balanced;
                }
                if crate::text::contains_str(&lower, "discursive") {
                    return Cadence::Discursive;
                }
            }
        }
        i = i + 1;
    }
    Cadence::Unset
}

// ---------------------------------------------------------------------------
// Lifeline phases
// ---------------------------------------------------------------------------

/// One phase of `lifeline.md`: its id, heading, and the year and age ranges
/// the heading carries.
#[derive(Debug, Clone)]
pub struct LifelinePhase {
    pub phase_id: String,
    pub display_name: String,
    /// Inclusive start year, from a `YYYY–YYYY` range in the heading.
    pub start_year: Option<i32>,
    pub end_year: Option<i32>,
    /// Inclusive age range, e.g. `ages 5–18`.
    pub start_age: Option<i32>,
    pub end_age: Option<i32>,
}

/// `char::is_ascii_alphanumeric() || c == '-'`, then `to_ascii_lowercase`,
/// over the first `n` characters.
pub open spec fn slug_of(s: Seq<char>, n: int) -> Seq<char>
    decreases n,
{
    if n <= 0 || n > s.len() {
        Seq::empty()
    } else if crate::text::is_alnum(s[n - 1]) || s[n - 1] == '-' {
        slug_of(s, n - 1).push(crate::text::ascii_lower(s[n - 1]))
    } else {
        slug_of(s, n - 1)
    }
}

/// Lowercase ASCII-only slug (for fallback phase ids).
pub fn slugify(s: &str) -> (r: String)
    ensures
        r@ == slug_of(s@, s@.len() as int),
{
    let cs = chars_of(s);
    let mut out = String::new();
    let mut i: usize = 0;
    while i < cs.len()
        invariant
            i <= cs@.len(),
            cs@ == s@,
            out@ == slug_of(cs@, i as int),
        decreases cs.len() - i,
    {
        let c = cs[i];
        if ('0' <= c && c <= '9') || ('a' <= c && c <= 'z') || ('A' <= c && c <= 'Z') || c == '-' {
            crate::text::push_char(&mut out, crate::text::ascii_lower_exec(c));
        }
        i = i + 1;
    }
    out
}

/// End of the run of ASCII digits starting at `i`.
pub open spec fn run_end(s: Seq<char>, i: int) -> int
    decreases s.len() - i,
{
    if i < 0 || i >= s.len() {
        if i < 0 {
            0
        } else {
            s.len() as int
        }
    } else if is_digit(s[i]) {
        run_end(s, i + 1)
    } else {
        i
    }
}

pub proof fn lemma_run_end(s: Seq<char>, i: int)
    requires
        0 <= i <= s.len(),
    ensures
        i <= run_end(s, i) <= s.len(),
        i < s.len() && is_digit(s[i]) ==> i < run_end(s, i),
        forall|k: int| i <= k < run_end(s, i) ==> is_digit(#[trigger] s[k]),
        run_end(s, i) < s.len() ==> !is_digit(s[run_end(s, i)]),
    decreases s.len() - i,
{
    if i < s.len() && is_digit(s[i]) {
        lemma_run_end(s, i + 1);
    }
}

/// The years (4-digit runs in 1700..=2200) of `s` from index `i`, in order.
///
/// Scanning characters finds the same digit runs as scanning UTF-8 bytes:
/// bytes of multi-byte characters are never ASCII digits.
pub open spec fn years_from(s: Seq<char>, i: int) -> Seq<i32>
    decreases s.len() - i,
{
    if i < 0 || i >= s.len() {
        Seq::empty()
    } else if is_digit(s[i]) {
        let j = run_end(s, i);
        proof {
            lemma_run_end(s, i);
        }
        let v = digits_value(s.subrange(i, j));
        if j - i == 4 && 1700 <= v && v <= 2200 {
            seq![v as i32] + years_from(s, j)
        } else {
            years_from(s, j)
        }
    } else {
        years_from(s, i + 1)
    }
}

/// Value of a run of digits, saturated at `cap`.
fn run_value(s: &[char], a: usize, b: usize, cap: u32) -> (v: u32)
    requires
        a <= b <= s@.len(),
        forall|k: int| a <= k < b ==> is_digit(#[trigger] s@[k]),
        cap < 1000000,
    ensures
        v == if digits_value(s@.subrange(a as int, b as int)) < cap {
            digits_value(s@.subrange(a as int, b as int))
        } else {
            cap as nat
        },
{
    let mut v: u32 = 0;
    let mut i = a;
    while i < b
        invariant
            a <= i <= b,
            b <= s@.len(),
            forall|k: int| a <= k < b ==> is_digit(#[trigger] s@[k]),
            cap < 1000000,
            v == if digits_value(s@.subrange(a as int, i as int)) < cap {
                digits_value(s@.subrange(a as int, i as int))
            } else {
                cap as nat
            },
        decreases b - i,
    {
        assert(is_digit(s@[i as int]));
        assert(s@.subrange(a as int, i + 1).drop_last() == s@.subrange(a as int, i as int));
        let d = (s[i] as u32) - ('0' as u32);
        let nv = v * 10 + d;
        v = if nv < cap {
            nv
        } else {
            cap
        };
        i = i + 1;
    }
    v
}

/// Collect 4-digit years (1700–2200) from arbitrary text.
pub fn collect_years(text: &str) -> (r: Vec<i32>)
    ensures
        r@ == years_from(text@, 0),
{
    let cs = chars_of(text);
    let mut out: Vec<i32> = Vec::new();
    let mut i: usize = 0;
    while i < cs.len()
        invariant
            i <= cs@.len(),
            cs@ == text@,
            years_from(text@, 0) == out@ + years_from(text@, i as int),
        decreases cs.len() - i,
    {
        let c = cs[i];
        if '0' <= c && c <= '9' {
            let mut j = i;
            while j < cs.len() && '0' <= cs[j] && cs[j] <= '9'
                invariant
                    i <= j <= cs@.len(),
                    run_end(cs@, j as int) == run_end(cs@, i as int),
                decreases cs.len() - j,
            {
                j = j + 1;
            }
            proof {
                lemma_run_end(cs@, i as int);
            }
            if j - i == 4 {
                let v = run_value(&cs, i, j, 10000);
                proof {
                    assert(v == digits_value(cs@.subrange(i as int, j as int))) by {
                        lemma_four_digits(cs@.subrange(i as int, j as int));
                    }
                }
                if 1700 <= v && v <= 2200 {
                    assert(out@.push(v as i32) + years_from(text@, j as int) =~= out@ + (seq![
                        v as i32,
                    ] + years_from(text@, j as int)));
                    out.push(v as i32);
                }
            }
            i = j;
        } else {
            i = i + 1;
        }
    }
    assert(out@ + Seq::<i32>::empty() == out@);
    out
}

proof fn lemma_four_digits(d: Seq<char>)
    requires
        d.len() == 4,
        forall|k: int| 0 <= k < 4 ==> is_digit(#[trigger] d[k]),
    ensures
        digits_value(d) < 10000,
{
    lemma_digits_prefix(d, 0);
    lemma_digits_prefix(d, 1);
    lemma_digits_prefix(d, 2);
    lemma_digits_prefix(d, 3);
    assert(d.take(4) == d);
    assert(d.take(0) =~= Seq::<char>::empty());
}

proof fn lemma_digits_prefix(d: Seq<char>, k: int)
    requires
        0 <= k < d.len(),
        is_digit(d[k]),
    ensures
        digits_value(d.take(k + 1)) == digits_value(d.take(k)) * 10 + ((d[k] as u32) - ('0' as u32)),
        ((d[k] as u32) - ('0' as u32)) < 10,
{
    assert(d.take(k + 1).drop_last() == d.take(k));
}

/// `(first year, second year)` of a heading, None when it names no year.
pub open spec fn year_range(line: Seq<char>) -> Option<(i32, Option<i32>)> {
    let ys = years_from(line, 0);
    if ys.len() == 0 {
        None
    } else {
        Some(
            (
                ys[0],
                if ys.len() > 1 {
                    Some(ys[1])
                } else {
                    None
                },
            ),
        )
    }
}

/// Extract a (start, Option<end>) year tuple from a heading like
/// `## ... · 1959–1964 · ages 18–23` or `## ... 1971–present`.
pub fn extract_year_range(line: &str) -> (r: Option<(i32, Option<i32>)>)
    ensures
        r == year_range(line@),
{
    let ys = collect_years(line);
    if ys.len() == 0 {
        None
    } else {
        let end = if ys.len() > 1 {
            Some(ys[1])
        } else {
            None
        };
        Some((ys[0], end))
    }
}

// --- ages, on bytes (the heading is searched in its lowercase form) ---

/// En dash and em dash read as `-`.
pub open spec fn dash_norm(s: Seq<char>) -> Seq<char> {
    s.map_values(|c: char| if c == '–' || c == '—' { '-' } else { c })
}

pub open spec fn is_digit_byte(b: u8) -> bool {
    48 <= b && b <= 57
}

pub open spec fn byte_run_end(b: Seq<u8>, i: int) -> int
    decreases b.len() - i,
{
    if i < 0 || i >= b.len() {
        if i < 0 {
            0
        } else {
            b.len() as int
        }
    } else if is_digit_byte(b[i]) {
        byte_run_end(b, i + 1)
    } else {
        i
    }
}

pub proof fn lemma_byte_run_end(b: Seq<u8>, i: int)
    requires
        0 <= i <= b.len(),
    ensures
        i <= byte_run_end(b, i) <= b.len(),
        i < b.len() && is_digit_byte(b[i]) ==> i < byte_run_end(b, i),
        forall|k: int| i <= k < byte_run_end(b, i) ==> is_digit_byte(#[trigger] b[k]),
    decreases b.len() - i,
{
    if i < b.len() && is_digit_byte(b[i]) {
        lemma_byte_run_end(b, i + 1);
    }
}

pub open spec fn byte_digits_value(b: Seq<u8>) -> nat
    decreases b.len(),
{
    if b.len() == 0 {
        0
    } else {
        byte_digits_value(b.drop_last()) * 10 + (b.last() - 48) as nat
    }
}

/// The first two elements (all of them when fewer).
pub open spec fn first2(s: Seq<i32>) -> Seq<i32> {
    if s.len() <= 2 {
        s
    } else {
        s.take(2)
    }
}

/// Numbers at most 120 among the digit runs of `b` from index `i`.
pub open spec fn ages_from(b: Seq<u8>, i: int) -> Seq<i32>
    decreases b.len() - i,
{
    if i < 0 || i >= b.len() {
        Seq::empty()
    } else if is_digit_byte(b[i]) {
        let j = byte_run_end(b, i);
        proof {
            lemma_byte_run_end(b, i);
        }
        let v = byte_digits_value(b.subrange(i, j));
        if v <= 120 {
            seq![v as i32] + ages_from(b, j)
        } else {
            ages_from(b, j)
        }
    } else {
        ages_from(b, i + 1)
    }
}

/// First index at which `p` occurs in `b`.
pub open spec fn find_bytes(b: Seq<u8>, p: Seq<u8>, i: int) -> Option<int>
    decreases b.len() + 1 - i,
{
    if i < 0 || i + p.len() > b.len() {
        None
    } else if b.subrange(i, i + p.len()) == p {
        Some(i)
    } else {
        find_bytes(b, p, i + 1)
    }
}

pub open spec fn age_bytes() -> Seq<u8> {
    seq![97u8, 103u8, 101u8]
}

/// Where `age` first occurs in the UTF-8 bytes of the heading's lowercase form.
pub open spec fn age_cut(line: Seq<char>) -> Option<int> {
    find_bytes(vstd::utf8::encode_utf8(lowercase(dash_norm(line))), age_bytes(), 0)
}

/// The heading can be cut at that index: the original text panics when the
/// lowercase form's byte offset does not fall on a character boundary of the
/// heading (possible only for characters whose lowercase has another length).
pub open spec fn age_cut_ok(line: Seq<char>) -> bool {
    match age_cut(line) {
        Some(idx) => vstd::utf8::is_char_boundary(vstd::utf8::encode_utf8(dash_norm(line)), idx),
        None => true,
    }
}

/// `ages X–Y` of a heading: the first two numbers (at most 120) after `age`.
pub open spec fn age_range(line: Seq<char>) -> Option<(i32, Option<i32>)> {
    match age_cut(line) {
        None => None,
        Some(idx) => {
            let after = vstd::utf8::encode_utf8(dash_norm(line)).skip(idx);
            let ages = ages_from(after, 0);
            if ages.len() == 0 {
                None
            } else {
                Some(
                    (
                        ages[0],
                        if ages.len() > 1 {
                            Some(ages[1])
                        } else {
                            None
                        },
                    ),
                )
            }
        },
    }
}

fn norm_string(line: &str) -> (r: String)
    ensures
        r@ == dash_norm(line@),
{
    let cs = chars_of(line);
    let mut out: Vec<char> = Vec::new();
    let mut i: usize = 0;
    while i < cs.len()
        invariant
            i <= cs@.len(),
            cs@ == line@,
            out@ == dash_norm(cs@).take(i as int),
        decreases cs.len() - i,
    {
        let c = cs[i];
        if c == '–' || c == '—' {
            out.push('-');
        } else {
            out.push(c);
        }
        i = i + 1;
        assert(out@ =~= dash_norm(cs@).take(i as int));
    }
    assert(dash_norm(cs@).take(i as int) =~= dash_norm(cs@));
    string_of(&out)
}

fn find_bytes_exec(b: &[u8], p: &[u8]) -> (r: Option<usize>)
    ensures
        r matches Some(k) ==> find_bytes(b@, p@, 0) == Some(k as int),
        r is None ==> find_bytes(b@, p@, 0) is None,
{
    if p.len() > b.len() {
        return None;
    }
    let last = b.len() - p.len();
    let mut i: usize = 0;
    while i <= last
        invariant
            i <= last + 1,
            last == b.len() - p.len(),
            p.len() <= b.len(),
            find_bytes(b@, p@, 0) == find_bytes(b@, p@, i as int),
        decreases last + 1 - i,
    {
        let mut j: usize = 0;
        let mut same = true;
        while j < p.len()
            invariant
                j <= p.len(),
                i + p.len() <= b.len(),
                same == forall|k: int| 0 <= k < j ==> b@[i + k] == p@[k],
            decreases p.len() - j,
        {
            if b[i + j] != p[j] {
                same = false;
            }
            j = j + 1;
        }
        if same {
            assert(b@.subrange(i as int, i + p.len()) =~= p@);
            return Some(i);
        } else {
            assert(b@.subrange(i as int, i + p.len()) != p@) by {
                let k = choose|k: int| 0 <= k < p.len() && b@[i + k] != p@[k];
                assert(b@.subrange(i as int, i + p.len())[k] != p@[k]);
            }
        }
        if i == last {
            assert(find_bytes(b@, p@, i + 1) is None);
            return None;
        }
        i = i + 1;
    }
    None
}

fn byte_run_value(b: &[u8], a: usize, e: usize) -> (v: u32)
    requires
        a <= e <= b@.len(),
        forall|k: int| a <= k < e ==> is_digit_byte(#[trigger] b@[k]),
    ensures
        v == if byte_digits_value(b@.subrange(a as int, e as int)) < 121 {
            byte_digits_value(b@.subrange(a as int, e as int))
        } else {
            121
        },
{
    let mut v: u32 = 0;
    let mut i = a;
    while i < e
        invariant
            a <= i <= e,
            e <= b@.len(),
            forall|k: int| a <= k < e ==> is_digit_byte(#[trigger] b@[k]),
            v == if byte_digits_value(b@.subrange(a as int, i as int)) < 121 {
                byte_digits_value(b@.subrange(a as int, i as int))
            } else {
                121
            },
        decreases e - i,
    {
        assert(is_digit_byte(b@[i as int]));
        assert(b@.subrange(a as int, i + 1).drop_last() == b@.subrange(a as int, i as int));
        let d = (b[i] - 48) as u32;
        let nv = v * 10 + d;
        v = if nv < 121 {
            nv
        } else {
            121
        };
        i = i + 1;
    }
    v
}

/// Extract `ages X–Y` from a heading line.
pub fn extract_age_range(line: &str) -> (r: Option<(i32, Option<i32>)>)
    requires
        age_cut_ok(line@),
    ensures
        r == age_range(line@),
{
    let norm = norm_string(line);
    let lower_chars = to_lowercase_vec(&chars_of(norm.as_str()));
    let lower = string_of(&lower_chars);
    let pat: Vec<u8> = vec![97u8, 103u8, 101u8];
    assert(pat@ =~= age_bytes());
    let idx = match find_bytes_exec(lower.as_str().as_bytes(), &pat) {
        None => {
            return None;
        },
        Some(k) => k,
    };
    let nb = norm.as_str().as_bytes();
    proof {
        vstd::utf8::encode_utf8_valid_utf8(dash_norm(line@));
        assert(idx <= nb@.len());
    }
    let ghost after = nb@.skip(idx as int);
    let mut ages: Vec<i32> = Vec::new();
    let mut i: usize = idx;
    while i < nb.len() && ages.len() < 2
        invariant
            idx <= i <= nb@.len(),
            after == nb@.skip(idx as int),
            ages@.len() <= 2,
            first2(ages_from(after, 0)) == first2(ages@ + ages_from(after, i - idx)),
        decreases nb@.len() - i,
    {
        let c = nb[i];
        if 48 <= c && c <= 57 {
            let mut j = i;
            while j < nb.len() && 48 <= nb[j] && nb[j] <= 57
                invariant
                    i <= j <= nb@.len(),
                    forall|k: int| i <= k < j ==> is_digit_byte(#[trigger] nb@[k]),
                decreases nb@.len() - j,
            {
                j = j + 1;
            }
            let v = byte_run_value(nb, i, j);
            proof {
                lemma_byte_run_end(after, i - idx);
                lemma_shift_run(nb@, idx as int, i as int, j as int);
                assert(after.subrange(i - idx, j - idx) == nb@.subrange(i as int, j as int));
            }
            if v <= 120 {
                assert((ages@.push(v as i32) + ages_from(after, j - idx)) =~= (ages@ + (seq![
                    v as i32,
                ] + ages_from(after, j - idx))));
                ages.push(v as i32);
            }
            i = j;
        } else {
            assert(after[i - idx] == c);
            i = i + 1;
        }
    }
    proof {
        if i >= nb@.len() {
            assert(ages_from(after, i - idx) == Seq::<i32>::empty());
            assert(ages@ + Seq::<i32>::empty() == ages@);
        } else {
            assert(first2(ages@ + ages_from(after, i - idx)) =~= ages@);
        }
        assert(first2(ages@) == ages@);
    }
    if ages.len() == 0 {
        None
    } else {
        let second = if ages.len() > 1 {
            Some(ages[1])
        } else {
            None
        };
        Some((ages[0], second))
    }
}

proof fn lemma_shift_run(b: Seq<u8>, s: int, i: int, j: int)
    requires
        0 <= s <= i < j <= b.len(),
        forall|k: int| i <= k < j ==> is_digit_byte(#[trigger] b[k]),
        j == b.len() || !is_digit_byte(b[j]),
    ensures
        byte_run_end(b.skip(s), i - s) == j - s,
    decreases j - i,
{
    let t = b.skip(s);
    assert(t[i - s] == b[i]);
    assert(byte_run_end(t, i - s) == byte_run_end(t, i - s + 1));
    if i + 1 < j {
        lemma_shift_run(b, s, i + 1, j);
    } else {
        if j < b.len() {
            assert(t[j - s] == b[j]);
        }
        assert(byte_run_end(t, j - s) == j - s);
    }
}

// --- phase ids, phases, detection ---

/// The text between the first two backticks of a line.
pub open spec fn backtick_candidate(l: Seq<char>) -> Option<Seq<char>> {
    match find(l, "`"@) {
        Some(a) => {
            let rest = l.skip(a + 1);
            match find(rest, "`"@) {
                Some(b) => Some(rest.take(b)),
                None => None,
            }
        },
        None => None,
    }
}

/// A usable phase id: starts with `phase-`, at most 80 bytes.
pub open spec fn phase_id_ok(c: Seq<char>) -> bool {
    starts_with(c, "phase-"@) && vstd::utf8::encode_utf8(c).len() <= 80
}

/// The first usable backtick id on lines `i..hi`.
pub open spec fn lookahead_from(ls: Seq<Seq<char>>, i: int, hi: int) -> Option<Seq<char>>
    decreases hi - i,
{
    if i >= hi || i < 0 || i >= ls.len() {
        None
    } else {
        match backtick_candidate(ls[i]) {
            Some(c) => if phase_id_ok(c) {
                Some(c)
            } else {
                lookahead_from(ls, i + 1, hi)
            },
            None => lookahead_from(ls, i + 1, hi),
        }
    }
}

/// The id given under heading `h`: within the next five lines.
pub open spec fn lookahead(ls: Seq<Seq<char>>, h: int) -> Option<Seq<char>> {
    lookahead_from(ls, h + 1, if h + 6 < ls.len() { h + 6 } else { ls.len() as int })
}

fn backtick_candidate_exec(l: &[char]) -> (r: Option<Vec<char>>)
    ensures
        match backtick_candidate(l@) {
            Some(c) => r matches Some(v) && v@ == c,
            None => r is None,
        },
{
    let tick = chars_of("`");
    assert(tick@.len() == 1) by {
        reveal_strlit("`");
    }
    match find_exec(l, &tick) {
        None => None,
        Some(a) => {
            proof {
                crate::text::lemma_find_from(l@, "`"@, 0);
            }
            let tl = tick.len();
            assert(a + tl <= l.len());
            let rest = slice_vec(l, a + tl, l.len());
            match find_exec(&rest, &tick) {
                None => None,
                Some(b) => {
                    proof {
                        crate::text::lemma_find_from(rest@, "`"@, 0);
                    }
                    Some(slice_vec(&rest, 0, b))
                },
            }
        },
    }
}

/// Look at the few lines after a `## phase` heading for a backtick-quoted
/// `phase-foo-bar` id; returns it without backticks.
pub fn lookahead_phase_id(lines: &Vec<Vec<char>>, heading_idx: usize) -> (r: Option<String>)
    ensures
        match lookahead(views(lines@), heading_idx as int) {
            Some(c) => r matches Some(s) && s@ == c,
            None => r is None,
        },
{
    let ghost ls = views(lines@);
    if heading_idx >= lines.len() {
        return None;
    }
    let end = if lines.len() - heading_idx > 6 {
        heading_idx + 6
    } else {
        lines.len()
    };
    let mut i = heading_idx + 1;
    while i < end
        invariant
            heading_idx < i <= end + 1,
            end <= lines@.len(),
            end as int == (if heading_idx + 6 < ls.len() { heading_idx + 6 } else { ls.len() as int }),
            ls == views(lines@),
            lookahead(ls, heading_idx as int) == lookahead_from(ls, i as int, end as int),
        decreases end + 1 - i,
    {
        assert(ls[i as int] == lines@[i as int]@);
        match backtick_candidate_exec(&lines[i]) {
            Some(c) => {
                let cs = string_of(&c);
                let blen = cs.as_str().as_bytes().len();
                assert(blen == vstd::utf8::encode_utf8(c@).len());
                if starts_with_str(&c, "phase-") && blen <= 80 {
                    assert(phase_id_ok(c@));
                    assert(lookahead_from(ls, i as int, end as int) == Some(c@));
                    return Some(cs);
                }
            },
            None => {},
        }
        i = i + 1;
    }
    None
}

/// Spec view of a phase: id, heading, start and end year, start and end age.
pub type PhaseView = (Seq<char>, Seq<char>, Option<i32>, Option<i32>, Option<i32>, Option<i32>);

pub open spec fn phase_view(p: LifelinePhase) -> PhaseView {
    (p.phase_id@, p.display_name@, p.start_year, p.end_year, p.start_age, p.end_age)
}

pub open spec fn phase_views(ps: Seq<LifelinePhase>) -> Seq<PhaseView> {
    ps.map_values(|p: LifelinePhase| phase_view(p))
}

/// The phase that line `i` opens, if it is a `## ` heading with a year;
/// `count` phases precede it.
pub open spec fn heading_phase(ls: Seq<Seq<char>>, i: int, count: int) -> Option<PhaseView> {
    let t = trim(ls[i]);
    if !starts_with(t, "## "@) {
        None
    } else {
        match year_range(t) {
            None => None,
            Some(ys) => {
                let disp = trim(trim_start_matches(t, "## "@));
                let ages = age_range(t);
                let id = match lookahead(ls, i) {
                    Some(x) => x,
                    None => "phase-"@ + crate::text::decimal((count + 1) as nat) + "-"@
                        + crate::text::take_chars(slug_of(disp, disp.len() as int), 40),
                };
                Some(
                    (
                        id,
                        disp,
                        Some(ys.0),
                        ys.1,
                        match ages {
                            Some(a) => Some(a.0),
                            None => None,
                        },
                        match ages {
                            Some(a) => a.1,
                            None => None,
                        },
                    ),
                )
            },
        }
    }
}

/// Phases of the first `n` lines.
pub open spec fn phases_upto(ls: Seq<Seq<char>>, n: int) -> Seq<PhaseView>
    decreases n,
{
    if n <= 0 || n > ls.len() {
        Seq::empty()
    } else {
        let prev = phases_upto(ls, n - 1);
        match heading_phase(ls, n - 1, prev.len() as int) {
            Some(p) => prev.push(p),
            None => prev,
        }
    }
}

/// Every year-carrying `## ` heading can be searched for its ages.
pub open spec fn lifeline_ok(content: Seq<char>) -> bool {
    let ls = lines(content);
    forall|k: int|
        0 <= k < ls.len() && starts_with(trim(ls[k]), "## "@) && year_range(trim(ls[k])) is Some
            ==> age_cut_ok(#[trigger] trim(ls[k]))
}

/// Whether `age_cut_ok` holds of a heading.
pub fn age_cut_ok_exec(line: &str) -> (r: bool)
    ensures
        r == age_cut_ok(line@),
{
    let norm = norm_string(line);
    let lower_chars = to_lowercase_vec(&chars_of(norm.as_str()));
    let lower = string_of(&lower_chars);
    let pat: Vec<u8> = vec![97u8, 103u8, 101u8];
    assert(pat@ =~= age_bytes());
    match find_bytes_exec(lower.as_str().as_bytes(), &pat) {
        None => true,
        Some(idx) => norm.as_str().is_char_boundary(idx),
    }
}

/// Whether `parse_lifeline_phases` accepts `content` (see `lifeline_ok`).
pub fn lifeline_ok_exec(content: &str) -> (r: bool)
    ensures
        r == lifeline_ok(content@),
{
    let cs = chars_of(content);
    let ls = lines_vec(&cs);
    let ghost lv = views(ls@);
    let mut i: usize = 0;
    while i < ls.len()
        invariant
            i <= ls@.len(),
            lv == views(ls@),
            lv == lines(content@),
            forall|k: int|
                0 <= k < i && starts_with(trim(lv[k]), "## "@) && year_range(trim(lv[k])) is Some
                    ==> age_cut_ok(#[trigger] trim(lv[k])),
        decreases ls.len() - i,
    {
        assert(lv[i as int] == ls@[i as int]@);
        let t = trim_vec(&ls[i]);
        if starts_with_str(&t, "## ") {
            let ts = string_of(&t);
            if extract_year_range(ts.as_str()).is_some() {
                if !age_cut_ok_exec(ts.as_str()) {
                    return false;
                }
            }
        }
        i = i + 1;
    }
    true
}

/// Parse `lifeline.md` into its phases: `## ` headings carrying a year range
/// (optionally an age range); other headings are skipped.
pub fn parse_lifeline_phases(content: &str) -> (r: Vec<LifelinePhase>)
    requires
        lifeline_ok(content@),
    ensures
        phase_views(r@) == phases_upto(lines(content@), lines(content@).len() as int),
{
    let cs = chars_of(content);
    let ls = lines_vec(&cs);
    let ghost lv = views(ls@);
    let mut out: Vec<LifelinePhase> = Vec::new();
    let mut i: usize = 0;
    while i < ls.len()
        invariant
            i <= ls@.len(),
            lv == views(ls@),
            lv == lines(content@),
            lifeline_ok(content@),
            phase_views(out@) == phases_upto(lv, i as int),
            out@.len() <= i,
        decreases ls.len() - i,
    {
        assert(lv[i as int] == ls@[i as int]@);
        let ghost prev = phases_upto(lv, i as int);
        assert(phase_views(out@).len() == out@.len());
        let t = trim_vec(&ls[i]);
        if starts_with_str(&t, "## ") {
            let ts = string_of(&t);
            match extract_year_range(ts.as_str()) {
                None => {},
                Some(ys) => {
                    let d1 = trim_start_matches_str(&t, "## ");
                    let disp = trim_vec(&d1);
                    let ages = extract_age_range(ts.as_str());
                    let id = match lookahead_phase_id(&ls, i) {
                        Some(x) => x,
                        None => {
                            let mut f = owned("phase-");
                            crate::text::push_decimal(&mut f, (out.len() + 1) as u64);
                            f.append("-");
                            let sl = slugify(string_of(&disp).as_str());
                            let slc = chars_of(sl.as_str());
                            let taken = crate::text::take_chars_vec(&slc, 40);
                            crate::text::append_chars(&mut f, &taken);
                            f
                        },
                    };
                    let ph = LifelinePhase {
                        phase_id: id,
                        display_name: string_of(&disp),
                        start_year: Some(ys.0),
                        end_year: ys.1,
                        start_age: match ages {
                            Some(a) => Some(a.0),
                            None => None,
                        },
                        end_age: match ages {
                            Some(a) => a.1,
                            None => None,
                        },
                    };
                    let ghost before = out@;
                    out.push(ph);
                    assert(phase_views(out@) =~= phase_views(before).push(phase_view(ph)));
                },
            }
        }
        i = i + 1;
    }
    out
}

/// Whether a phase's year range holds `year` (open-ended when no end year).
pub open spec fn phase_holds(p: LifelinePhase, year: i32) -> bool {
    match (p.start_year, p.end_year) {
        (Some(s), Some(e)) => year >= s && year <= e,
        (Some(s), None) => year >= s,
        _ => false,
    }
}

pub fn phase_contains_year(phase: &LifelinePhase, year: i32) -> (r: bool)
    ensures
        r == phase_holds(*phase, year),
{
    match (phase.start_year, phase.end_year) {
        (Some(s), Some(e)) => year >= s && year <= e,
        (Some(s), None) => year >= s,
        _ => false,
    }
}

/// First phase (from index `j`) holding `year`.
pub open spec fn phase_for_year(ps: Seq<LifelinePhase>, year: i32, j: int) -> Option<int>
    decreases ps.len() - j,
{
    if j < 0 || j >= ps.len() {
        None
    } else if phase_holds(ps[j], year) {
        Some(j)
    } else {
        phase_for_year(ps, year, j + 1)
    }
}

/// Index of the phase pinned by the first year of `ys` (from `k`) that some
/// phase holds.
pub open spec fn phase_for_years(ps: Seq<LifelinePhase>, ys: Seq<i32>, k: int) -> Option<int>
    decreases ys.len() - k,
{
    if k < 0 || k >= ys.len() {
        None
    } else {
        match phase_for_year(ps, ys[k], 0) {
            Some(j) => Some(j),
            None => phase_for_years(ps, ys, k + 1),
        }
    }
}

/// Pin a question to a lifeline phase by the year anchors it mentions.
pub open spec fn detected_phase(ps: Seq<LifelinePhase>, text: Seq<char>) -> Option<int> {
    phase_for_years(ps, years_from(text, 0), 0)
}

/// Try to pin a user's question to one phase by scanning the text for year
/// anchors (e.g. "1968", "1965 年") that fall inside a phase's range; the
/// first year that some phase holds decides, and the first such phase wins.
pub fn detect_phase_from_text<'a>(phases: &'a [LifelinePhase], text: &str) -> (r: Option<
    &'a LifelinePhase,
>)
    ensures
        match detected_phase(phases@, text@) {
            Some(j) => r matches Some(p) && 0 <= j < phases@.len() && *p == phases@[j],
            None => r is None,
        },
{
    if phases.len() == 0 {
        proof {
            lemma_no_phase(phases@, years_from(text@, 0), 0);
        }
        return None;
    }
    let years = collect_years(text);
    let mut k: usize = 0;
    while k < years.len()
        invariant
            k <= years@.len(),
            years@ == years_from(text@, 0),
            phase_for_years(phases@, years@, 0) == phase_for_years(phases@, years@, k as int),
        decreases years.len() - k,
    {
        let y = years[k];
        let mut j: usize = 0;
        while j < phases.len()
            invariant
                j <= phases@.len(),
                k < years@.len(),
                y == years@[k as int],
                years@ == years_from(text@, 0),
                phase_for_years(phases@, years@, 0) == phase_for_years(phases@, years@, k as int),
                phase_for_year(phases@, y, 0) == phase_for_year(phases@, y, j as int),
            decreases phases.len() - j,
        {
            if phase_contains_year(&phases[j], y) {
                proof {
                    lemma_phase_for_year_range(phases@, y, 0);
                    assert(phase_for_year(phases@, y, j as int) == Some(j as int));
                    assert(years@[k as int] == y);
                    assert(phase_for_years(phases@, years@, k as int) == Some(j as int));
                }
                return Some(&phases[j]);
            }
            j = j + 1;
        }
        k = k + 1;
    }
    None
}

proof fn lemma_phase_for_year_range(ps: Seq<LifelinePhase>, year: i32, j: int)
    requires
        0 <= j,
    ensures
        phase_for_year(ps, year, j) matches Some(x) ==> j <= x < ps.len(),
    decreases ps.len() - j,
{
    if j < ps.len() && !phase_holds(ps[j], year) {
        lemma_phase_for_year_range(ps, year, j + 1);
    }
}

proof fn lemma_no_phase(ps: Seq<LifelinePhase>, ys: Seq<i32>, k: int)
    requires
        ps.len() == 0,
        0 <= k,
    ensures
        phase_for_years(ps, ys, k) is None,
    decreases ys.len() - k,
{
    if k < ys.len() {
        lemma_no_phase(ps, ys, k + 1);
    }
}

/// First line (from `i`) whose trimmed text is `t`.
pub open spec fn line_equal_from(ls: Seq<Seq<char>>, t: Seq<char>, i: int) -> Option<int>
    decreases ls.len() - i,
{
    if i < 0 || i >= ls.len() {
        None
    } else if trim(ls[i]) == t {
        Some(i)
    } else {
        line_equal_from(ls, t, i + 1)
    }
}

/// Lines from `i` up to the next `## ` heading, each followed by `\n`.
pub open spec fn section_text(ls: Seq<Seq<char>>, i: int) -> Seq<char>
    decreases ls.len() - i,
{
    if i < 0 || i >= ls.len() || starts_with(ls[i], "## "@) {
        Seq::empty()
    } else {
        ls[i] + seq!['\n'] + section_text(ls, i + 1)
    }
}

/// The section `## display_name` of a lifeline, up to the next `## ` heading.
pub open spec fn phase_section(lifeline: Seq<char>, display: Seq<char>) -> Option<Seq<char>> {
    let ls = lines(lifeline);
    match line_equal_from(ls, trim("## "@ + display), 0) {
        None => None,
        Some(k) => Some(crate::text::trim_end(ls[k] + seq!['\n'] + section_text(ls, k + 1))),
    }
}

fn find_trimmed_line(ls: &Vec<Vec<char>>, t: &Vec<char>) -> (r: Option<usize>)
    ensures
        match line_equal_from(views(ls@), t@, 0) {
            Some(k) => r == Some(k as usize) && 0 <= k < ls@.len(),
            None => r is None,
        },
{
    let ghost lv = views(ls@);
    let mut k: usize = 0;
    while k < ls.len()
        invariant
            k <= ls@.len(),
            lv == views(ls@),
            line_equal_from(lv, t@, 0) == line_equal_from(lv, t@, k as int),
        decreases ls.len() - k,
    {
        assert(lv[k as int] == ls@[k as int]@);
        let tk = trim_vec(&ls[k]);
        if seq_eq(&tk, t) {
            return Some(k);
        }
        k = k + 1;
    }
    None
}

/// Slice a single `## {display_name}` section out of a lifeline.md blob,
/// stopping at the next `## ` heading; None when the heading is absent.
pub fn extract_phase_section(lifeline_md: &str, display_name: &str) -> (r: Option<String>)
    ensures
        match phase_section(lifeline_md@, display_name@) {
            Some(t) => r matches Some(s) && s@ == t,
            None => r is None,
        },
{
    let mut target = owned("## ");
    target.append(display_name);
    let tc = chars_of(target.as_str());
    let tt = trim_vec(&tc);
    let cs = chars_of(lifeline_md);
    let ls = lines_vec(&cs);
    let ghost lv = views(ls@);
    let k = match find_trimmed_line(&ls, &tt) {
        None => {
            return None;
        },
        Some(k) => k,
    };
    assert(lv[k as int] == ls@[k as int]@);
    let nl: Vec<char> = vec!['\n'];
    assert(nl@ =~= seq!['\n']);
    let mut buf = crate::text::concat_vec(&ls[k], &nl);
    assert(lv[k as int] == ls@[k as int]@);
    let ghost head = buf@;
    let mut i = k + 1;
    while i < ls.len() && !starts_with_str(&ls[i], "## ")
        invariant
            k < i <= ls@.len(),
            lv == views(ls@),
            buf@ + section_text(lv, i as int) == head + section_text(lv, (k + 1) as int),
        decreases ls.len() - i,
    {
        assert(lv[i as int] == ls@[i as int]@);
        let ghost b0 = buf@;
        buf = crate::text::concat_vec(&buf, &ls[i]);
        buf.push('\n');
        assert(buf@ + section_text(lv, i + 1) =~= b0 + section_text(lv, i as int));
        i = i + 1;
    }
    proof {
        if i < ls@.len() {
            assert(lv[i as int] == ls@[i as int]@);
        }
        assert(section_text(lv, i as int) == Seq::<char>::empty());
        assert(buf@ + Seq::<char>::empty() == buf@);
    }
    let tb = crate::text::trim_end_vec(&buf);
    Some(string_of(&tb))
}

// ---------------------------------------------------------------------------
// Personas and the registry
// ---------------------------------------------------------------------------

/// A wisdom persona: identity, five-layer knowledge, situation cards, voice,
/// cadence, and the optional weaving layer (lifeline, helping signature,
/// consistency audit).
#[derive(Debug, Clone)]
pub struct WisdomPersona {
    pub slug: String,
    pub name: String,
    pub title: String,
    pub worldview: String,
    pub philosophy: String,
    pub values: String,
    pub methodology: String,
    pub situations: Vec<SituationCard>,
    pub voice: VoiceTexture,
    pub cadence: Cadence,
    pub lifeline_md: Option<String>,
    pub helping_signature_md: Option<String>,
    pub consistency_audit_md: Option<String>,
    pub lifeline_phases: Vec<LifelinePhase>,
    /// Fallback prompt used when the persona has no layered content.
    pub legacy_prompt: Option<String>,
}

/// `parts` joined with `sep` (first `n` parts).
pub open spec fn join_upto(parts: Seq<Seq<char>>, sep: Seq<char>, n: int) -> Seq<char>
    decreases n,
{
    if n <= 0 || n > parts.len() {
        Seq::empty()
    } else if n == 1 {
        parts[0]
    } else {
        join_upto(parts, sep, n - 1) + sep + parts[n - 1]
    }
}

/// `parts.join(sep)`.
pub open spec fn join(parts: Seq<Seq<char>>, sep: Seq<char>) -> Seq<char> {
    join_upto(parts, sep, parts.len() as int)
}

/// Appends `parts.join(sep)` to `out`.
pub fn append_joined(out: &mut String, parts: &Vec<String>, sep: &str)
    ensures
        final(out)@ == old(out)@ + join(string_views(parts@), sep@),
{
    let ghost ps = string_views(parts@);
    let ghost o = out@;
    let mut i: usize = 0;
    while i < parts.len()
        invariant
            i <= parts@.len(),
            ps == string_views(parts@),
            out@ == o + join_upto(ps, sep@, i as int),
        decreases parts.len() - i,
    {
        assert(ps[i as int] == parts@[i as int]@);
        if i > 0 {
            out.append(sep);
        }
        out.append(parts[i].as_str());
        i = i + 1;
    }
}

/// A `## ` layer block; nothing when the layer is empty.
pub open spec fn layer_md(header: Seq<char>, body: Seq<char>) -> Seq<char> {
    if body.len() == 0 {
        Seq::empty()
    } else {
        header + body + "\n\n"@
    }
}

pub open spec fn card_md(c: SituationCard) -> Seq<char> {
    "### "@ + c.title@ + "\n"@ + "**情境**: "@ + c.situation@ + "\n"@ + "**核心矛盾**: "@
        + c.contradiction@ + "\n"@ + "**推理**: "@ + c.reasoning@ + "\n"@ + "**结论**: "@
        + c.conclusion@ + "\n"@ + "**可迁移模式**: "@ + c.abstract_form@ + "\n\n"@
}

/// Cards picked for the prompt: the first three of the ranking (best match
/// first), or the first three cards when no ranking is given.
pub open spec fn picked_cards(cards: Seq<SituationCard>, ranking: Option<Seq<usize>>) -> Seq<
    SituationCard,
> {
    match ranking {
        Some(r) => {
            let n = if r.len() < 3 {
                r.len() as int
            } else {
                3
            };
            Seq::new(n as nat, |i: int| cards[r[i] as int])
        },
        None => {
            let n = if cards.len() < 3 {
                cards.len() as int
            } else {
                3
            };
            cards.take(n)
        },
    }
}

pub open spec fn cards_md_upto(cs: Seq<SituationCard>, n: int) -> Seq<char>
    decreases n,
{
    if n <= 0 || n > cs.len() {
        Seq::empty()
    } else {
        cards_md_upto(cs, n - 1) + card_md(cs[n - 1])
    }
}

pub open spec fn cards_section(p: WisdomPersona, ranking: Option<Seq<usize>>) -> Seq<char> {
    if p.situations@.len() == 0 {
        Seq::empty()
    } else {
        let m = picked_cards(p.situations@, ranking);
        if m.len() == 0 {
            Seq::empty()
        } else {
            "## 类似情境（你曾面对过的）\n"@ + cards_md_upto(m, m.len() as int)
        }
    }
}

proof fn lemma_cards_md_starts_with_first(cs: Seq<SituationCard>, n: int)
    requires
        1 <= n <= cs.len(),
    ensures
        card_md(cs[0]).len() <= cards_md_upto(cs, n).len(),
        cards_md_upto(cs, n).take(card_md(cs[0]).len() as int) == card_md(cs[0]),
    decreases n,
{
    if n == 1 {
        assert(cards_md_upto(cs, 0) == Seq::<char>::empty());
        assert(cards_md_upto(cs, 1) =~= card_md(cs[0]));
    } else {
        lemma_cards_md_starts_with_first(cs, n - 1);
        let a = cards_md_upto(cs, n - 1);
        let l = card_md(cs[0]).len() as int;
        assert((a + card_md(cs[n - 1])).take(l) =~= a.take(l));
    }
}

/// Without a ranking, the prompt shows the persona's first three cards (all
/// of them when fewer), in their order.
pub proof fn lemma_unranked_cards_lead(p: WisdomPersona)
    ensures
        picked_cards(p.situations@, None).len() == if p.situations@.len() < 3 {
            p.situations@.len() as int
        } else {
            3
        },
        forall|i: int|
            0 <= i < picked_cards(p.situations@, None).len() ==> #[trigger] picked_cards(p.situations@, None)[i]
                == p.situations@[i],
{
}

/// With a ranking, the prompt shows the first three cards of the ranking
/// (all of it when shorter), in ranking order: picked card `i` is the card
/// the ranking puts at `i`, so the best-ranked card always comes first.
pub proof fn lemma_ranked_cards_lead(p: WisdomPersona, r: Seq<usize>)
    requires
        forall|i: int| 0 <= i < r.len() ==> (#[trigger] r[i]) < p.situations@.len(),
    ensures
        picked_cards(p.situations@, Some(r)).len() == if r.len() < 3 {
            r.len() as int
        } else {
            3
        },
        forall|i: int|
            0 <= i < picked_cards(p.situations@, Some(r)).len() ==> #[trigger] picked_cards(
                p.situations@,
                Some(r),
            )[i] == p.situations@[r[i] as int],
        p.situations@.len() > 0 && r.len() > 0 ==> ({
            let head = "## 类似情境（你曾面对过的）\n"@ + card_md(p.situations@[r[0] as int]);
            &&& head.len() <= cards_section(p, Some(r)).len()
            &&& cards_section(p, Some(r)).take(head.len() as int) == head
        }),
{
    let m = picked_cards(p.situations@, Some(r));
    if p.situations@.len() > 0 && r.len() > 0 {
        lemma_cards_md_starts_with_first(m, m.len() as int);
        let h = "## 类似情境（你曾面对过的）\n"@;
        let body = cards_md_upto(m, m.len() as int);
        let l = card_md(m[0]).len() as int;
        assert((h + body).take(h.len() + l) =~= h + body.take(l));
    }
}

pub open spec fn voice_line(head: Seq<char>, items: Seq<Seq<char>>, sep: Seq<char>, tail: Seq<char>) -> Seq<char> {
    if items.len() == 0 {
        Seq::empty()
    } else {
        head + join(items, sep) + tail
    }
}

pub open spec fn voice_section(v: VoiceTexture) -> Seq<char> {
    if v.first_person_markers@.len() == 0 && v.metaphor_domains@.len() == 0
        && v.sentence_patterns@.len() == 0 && v.forbidden_patterns@.len() == 0 {
        Seq::empty()
    } else {
        "## 说话方式\n"@ + voice_line(
            "- 用第一人称（"@,
            string_views(v.first_person_markers@),
            "、"@,
            "）\n"@,
        ) + voice_line("- 比喻领域："@, string_views(v.metaphor_domains@), "、"@, "\n"@)
            + voice_line("- 句式："@, string_views(v.sentence_patterns@), "；"@, "\n"@)
            + voice_line("- 禁止："@, string_views(v.forbidden_patterns@), "；"@, "\n"@)
            + "\n"@
    }
}

pub open spec fn lifeline_section(p: WisdomPersona, situation: Seq<char>) -> Seq<char> {
    match p.lifeline_md {
        None => Seq::empty(),
        Some(l) => "## 人生轨迹 / Lifeline\n"@ + match detected_phase(p.lifeline_phases@, situation) {
            Some(j) => {
                let d = p.lifeline_phases@[j].display_name@;
                "（案主提到的时间锚点匹配 **"@ + d + "**；优先用这个 phase 的框架回答）\n\n"@
                    + match phase_section(l@, d) {
                    Some(sec) => sec + "\n\n"@,
                    None => l@ + "\n\n"@,
                }
            },
            None => l@ + "\n\n"@,
        },
    }
}

pub open spec fn optional_md(header: Seq<char>, x: Option<String>) -> Seq<char> {
    match x {
        Some(t) => header + t@ + "\n\n"@,
        None => Seq::empty(),
    }
}

/// The closing response constraints of every layered prompt.
pub open spec fn response_rules() -> Seq<char> {
    "## 回应硬约束（不能违反）\n"@
        + "1. **语言匹配**：必须使用案主提问的语言。中文问 → 100% 中文回应；英文问 → 英文回应。即使你 persona 是英文母语人物（如 PG / Jobs / Musk / Bruce Lee），也必须用中文表达所有思考和决策。英文 voice signature 可作为 quote 嵌入但需中文翻译。\n"@
        + "2. **第一人称**：永远用「我」/「我当年」开口；不能说「作为 X 他认为」「Musk would say」等第三人称自称。\n"@
        + "3. **具体而非抽象**：至少 2-3 个具体历史锚（年份/地名/人名）。「我在 1955 年回国那会儿……」远比「从长期看……」有力。\n"@
        + "\n"@
}

/// Opening of a five-layer prompt: identity and the four knowledge layers.
pub open spec fn layers_md(p: WisdomPersona) -> Seq<char> {
    "你是"@ + p.name@ + "。以下是你的核心认知：\n\n"@ + layer_md("## 世界观\n"@, p.worldview@)
        + layer_md("## 人生观\n"@, p.philosophy@) + layer_md("## 价值观\n"@, p.values@)
        + layer_md("## 思考方式\n"@, p.methodology@)
}

/// Weaving layer of a five-layer prompt: lifeline, helping signature and
/// consistency audit.
pub open spec fn weaving_md(p: WisdomPersona, situation: Seq<char>) -> Seq<char> {
    lifeline_section(p, situation) + optional_md(
        "## 助人风格 / How I help others\n"@,
        p.helping_signature_md,
    ) + optional_md("## 言行一致性 / Consistency Audit\n"@, p.consistency_audit_md)
}

/// The five-layer prompt of a persona.
pub open spec fn five_layer_prompt(p: WisdomPersona, situation: Seq<char>, ranking: Option<Seq<usize>>) -> Seq<char> {
    layers_md(p) + weaving_md(p, situation) + cards_section(p, ranking) + voice_section(p.voice)
        + response_rules()
}

/// Whether the persona has layered content worth a five-layer prompt: a
/// worldview, life philosophy or values longer than 50 bytes.
pub open spec fn has_layers(p: WisdomPersona) -> bool {
    vstd::utf8::encode_utf8(p.worldview@).len() > 50 || vstd::utf8::encode_utf8(p.philosophy@).len()
        > 50 || vstd::utf8::encode_utf8(p.values@).len() > 50
}

/// The system prompt of a persona: five layers when present, else the legacy
/// prompt, else a one-line description.
pub open spec fn system_prompt(p: WisdomPersona, situation: Seq<char>, ranking: Option<Seq<usize>>) -> Seq<char> {
    if has_layers(p) {
        five_layer_prompt(p, situation, ranking)
    } else {
        match p.legacy_prompt {
            Some(l) => l@,
            None => "You are "@ + p.name@ + ". "@ + p.title@ + "."@,
        }
    }
}

/// Text of `s` before its first `.`.
pub open spec fn before_dot(s: Seq<char>) -> Seq<char> {
    match find(s, "."@) {
        Some(k) => s.take(k),
        None => s,
    }
}

pub open spec fn short_description_of(p: WisdomPersona) -> Seq<char> {
    let first = before_dot(p.worldview@);
    if p.worldview@.len() > 0 && vstd::utf8::encode_utf8(first).len() > 10 {
        "You are "@ + p.name@ + ". "@ + trim(first) + "."@
    } else {
        "You are "@ + p.name@ + ". "@ + p.title@ + "."@
    }
}

fn byte_len(s: &String) -> (n: usize)
    ensures
        n == vstd::utf8::encode_utf8(s@).len(),
{
    s.as_str().as_bytes().len()
}

fn append_layer(out: &mut String, header: &str, body: &String)
    ensures
        final(out)@ == old(out)@ + layer_md(header@, body@),
{
    if body.as_str().is_empty() {
        return;
    }
    out.append(header);
    out.append(body.as_str());
    out.append("\n\n");
}

fn append_optional(out: &mut String, header: &str, x: &Option<String>)
    ensures
        final(out)@ == old(out)@ + optional_md(header@, *x),
{
    match x {
        Some(t) => {
            out.append(header);
            out.append(t.as_str());
            out.append("\n\n");
        },
        None => {},
    }
}

fn append_card(out: &mut String, c: &SituationCard)
    ensures
        final(out)@ == old(out)@ + card_md(*c),
{
    out.append("### ");
    out.append(c.title.as_str());
    out.append("\n");
    out.append("**情境**: ");
    out.append(c.situation.as_str());
    out.append("\n");
    out.append("**核心矛盾**: ");
    out.append(c.contradiction.as_str());
    out.append("\n");
    out.append("**推理**: ");
    out.append(c.reasoning.as_str());
    out.append("\n");
    out.append("**结论**: ");
    out.append(c.conclusion.as_str());
    out.append("\n");
    out.append("**可迁移模式**: ");
    out.append(c.abstract_form.as_str());
    out.append("\n\n");
}

fn append_voice_line(out: &mut String, head: &str, items: &Vec<String>, sep: &str, tail: &str)
    ensures
        final(out)@ == old(out)@ + voice_line(head@, string_views(items@), sep@, tail@),
{
    if items.len() == 0 {
        return;
    }
    out.append(head);
    append_joined(out, items, sep);
    out.append(tail);
}

fn append_voice(out: &mut String, v: &VoiceTexture)
    ensures
        final(out)@ == old(out)@ + voice_section(*v),
{
    if v.is_empty() {
        return;
    }
    out.append("## 说话方式\n");
    append_voice_line(out, "- 用第一人称（", &v.first_person_markers, "、", "）\n");
    append_voice_line(out, "- 比喻领域：", &v.metaphor_domains, "、", "\n");
    append_voice_line(out, "- 句式：", &v.sentence_patterns, "；", "\n");
    append_voice_line(out, "- 禁止：", &v.forbidden_patterns, "；", "\n");
    out.append("\n");
}

fn append_rules(out: &mut String)
    ensures
        final(out)@ == old(out)@ + response_rules(),
{
    out.append("## 回应硬约束（不能违反）\n");
    out.append("1. **语言匹配**：必须使用案主提问的语言。中文问 → 100% 中文回应；英文问 → 英文回应。即使你 persona 是英文母语人物（如 PG / Jobs / Musk / Bruce Lee），也必须用中文表达所有思考和决策。英文 voice signature 可作为 quote 嵌入但需中文翻译。\n");
    out.append("2. **第一人称**：永远用「我」/「我当年」开口；不能说「作为 X 他认为」「Musk would say」等第三人称自称。\n");
    out.append("3. **具体而非抽象**：至少 2-3 个具体历史锚（年份/地名/人名）。「我在 1955 年回国那会儿……」远比「从长期看……」有力。\n");
    out.append("\n");
}

impl WisdomPersona {
    fn append_layers(&self, out: &mut String)
        ensures
            final(out)@ == old(out)@ + layers_md(*self),
    {
        out.append("你是");
        out.append(self.name.as_str());
        out.append("。以下是你的核心认知：\n\n");
        append_layer(out, "## 世界观\n", &self.worldview);
        append_layer(out, "## 人生观\n", &self.philosophy);
        append_layer(out, "## 价值观\n", &self.values);
        append_layer(out, "## 思考方式\n", &self.methodology);
    }

    fn append_weaving(&self, out: &mut String, situation: &str)
        ensures
            final(out)@ == old(out)@ + weaving_md(*self, situation@),
    {
        self.append_lifeline(out, situation);
        append_optional(out, "## 助人风格 / How I help others\n", &self.helping_signature_md);
        append_optional(out, "## 言行一致性 / Consistency Audit\n", &self.consistency_audit_md);
    }

    fn append_lifeline(&self, out: &mut String, situation: &str)
        ensures
            final(out)@ == old(out)@ + lifeline_section(*self, situation@),
    {
        match &self.lifeline_md {
            None => {},
            Some(l) => {
                out.append("## 人生轨迹 / Lifeline\n");
                match detect_phase_from_text(self.lifeline_phases.as_slice(), situation) {
                    Some(p) => {
                        out.append("（案主提到的时间锚点匹配 **");
                        out.append(p.display_name.as_str());
                        out.append("**；优先用这个 phase 的框架回答）\n\n");
                        match extract_phase_section(l.as_str(), p.display_name.as_str()) {
                            Some(sec) => {
                                out.append(sec.as_str());
                                out.append("\n\n");
                            },
                            None => {
                                out.append(l.as_str());
                                out.append("\n\n");
                            },
                        }
                    },
                    None => {
                        out.append(l.as_str());
                        out.append("\n\n");
                    },
                }
            },
        }
    }

    fn append_cards(&self, out: &mut String, ranking: Option<&[usize]>)
        requires
            ranking matches Some(r) ==> forall|i: int|
                0 <= i < r@.len() ==> (#[trigger] r@[i]) < self.situations@.len(),
        ensures
            final(out)@ == old(out)@ + cards_section(
                *self,
                match ranking {
                    Some(r) => Some(r@),
                    None => None,
                },
            ),
    {
        let ghost rk = match ranking {
            Some(r) => Some(r@),
            None => None,
        };
        if self.situations.len() == 0 {
            return;
        }
        let ghost m = picked_cards(self.situations@, rk);
        let n: usize = match ranking {
            Some(r) => if r.len() < 3 {
                r.len()
            } else {
                3
            },
            None => if self.situations.len() < 3 {
                self.situations.len()
            } else {
                3
            },
        };
        assert(m.len() == n);
        if n == 0 {
            return;
        }
        out.append("## 类似情境（你曾面对过的）\n");
        let ghost o = out@;
        let mut i: usize = 0;
        while i < n
            invariant
                i <= n,
                n == m.len(),
                m == picked_cards(self.situations@, rk),
                rk == match ranking {
                    Some(r) => Some(r@),
                    None => None,
                },
                ranking matches Some(r) ==> forall|i: int|
                    0 <= i < r@.len() ==> (#[trigger] r@[i]) < self.situations@.len(),
                n <= 3,
                ranking is None ==> n <= self.situations@.len(),
                ranking matches Some(r) ==> n <= r@.len(),
                out@ == o + cards_md_upto(m, i as int),
            decreases n - i,
        {
            let idx = match ranking {
                Some(r) => r[i],
                None => i,
            };
            assert(self.situations@[idx as int] == m[i as int]);
            append_card(out, &self.situations[idx]);
            i = i + 1;
        }
    }

    /// Build the full system prompt for this persona.
    ///
    /// Priority: five-layer prompt (when a layer has content) → legacy prompt
    /// → one-line description. `card_ranking` lists situation-card indices
    /// from best to worst match with the case's pressure fingerprint (cosine
    /// similarity, computed by the caller); the top three are included, and
    /// without a ranking the first three cards are.
    pub fn build_system_prompt(&self, user_situation: &str, card_ranking: Option<&[usize]>) -> (r: String)
        requires
            card_ranking matches Some(rk) ==> forall|i: int|
                0 <= i < rk@.len() ==> (#[trigger] rk@[i]) < self.situations@.len(),
        ensures
            r@ == system_prompt(
                *self,
                user_situation@,
                match card_ranking {
                    Some(rk) => Some(rk@),
                    None => None,
                },
            ),
    {
        if byte_len(&self.worldview) > 50 || byte_len(&self.philosophy) > 50 || byte_len(&self.values) > 50 {
            self.build_five_layer_prompt(user_situation, card_ranking)
        } else {
            match &self.legacy_prompt {
                Some(l) => l.clone(),
                None => {
                    let mut s = owned("You are ");
                    s.append(self.name.as_str());
                    s.append(". ");
                    s.append(self.title.as_str());
                    s.append(".");
                    s
                },
            }
        }
    }

    fn build_five_layer_prompt(&self, user_situation: &str, card_ranking: Option<&[usize]>) -> (r: String)
        requires
            card_ranking matches Some(rk) ==> forall|i: int|
                0 <= i < rk@.len() ==> (#[trigger] rk@[i]) < self.situations@.len(),
        ensures
            r@ == five_layer_prompt(
                *self,
                user_situation@,
                match card_ranking {
                    Some(rk) => Some(rk@),
                    None => None,
                },
            ),
    {
        let mut prompt = String::new();
        self.append_layers(&mut prompt);
        self.append_weaving(&mut prompt, user_situation);
        self.append_cards(&mut prompt, card_ranking);
        append_voice(&mut prompt, &self.voice);
        append_rules(&mut prompt);
        proof {
            assert(Seq::<char>::empty() + layers_md(*self) == layers_md(*self));
        }
        prompt
    }

    /// Short description for listings: the first sentence of the worldview
    /// when it is longer than 10 bytes, else the title.
    pub fn short_description(&self) -> (r: String)
        ensures
            r@ == short_description_of(*self),
    {
        let wv = chars_of(self.worldview.as_str());
        if wv.len() > 0 {
            let dot = chars_of(".");
            let first = match find_exec(&wv, &dot) {
                Some(k) => {
                    proof {
                        crate::text::lemma_find_from(wv@, dot@, 0);
                    }
                    assert(dot.len() == 1) by {
                        reveal_strlit(".");
                    }
                    assert(wv@.subrange(0, k as int) == wv@.take(k as int));
                    slice_vec(&wv, 0, k)
                },
                None => {
                    assert(wv@.subrange(0, wv@.len() as int) == wv@);
                    slice_vec(&wv, 0, wv.len())
                },
            };
            assert(first@ == before_dot(self.worldview@));
            let fs = string_of(&first);
            if byte_len(&fs) > 10 {
                let t = trim_vec(&first);
                let mut s = owned("You are ");
                s.append(self.name.as_str());
                s.append(". ");
                crate::text::append_chars(&mut s, &t);
                s.append(".");
                return s;
            }
        }
        let mut s = owned("You are ");
        s.append(self.name.as_str());
        s.append(". ");
        s.append(self.title.as_str());
        s.append(".");
        s
    }
}


/// Registry of loaded wisdom personas, in load order.
#[derive(Debug, Clone)]
pub struct PersonaRegistry {
    personas: Vec<WisdomPersona>,
}

impl View for PersonaRegistry {
    type V = Seq<WisdomPersona>;

    closed spec fn view(&self) -> Seq<WisdomPersona> {
        self.personas@
    }
}

/// Legacy short persona ids mapped to their kebab-case slugs.
pub open spec fn normalize_slug(s: Seq<char>) -> Seq<char> {
    if s == "mao"@ {
        "mao-zedong"@
    } else if s == "pg"@ {
        "paul-graham"@
    } else if s == "jobs"@ {
        "steve-jobs"@
    } else if s == "brucelee"@ {
        "bruce-lee"@
    } else if s == "kk"@ {
        "kevin-kelly"@
    } else {
        s
    }
}

/// Normalising a slug twice gives what normalising it once gives: no slug
/// that a legacy id maps to is itself a legacy id.
pub proof fn lemma_normalize_slug_idempotent(s: Seq<char>)
    ensures
        normalize_slug(normalize_slug(s)) == normalize_slug(s),
{
    reveal_strlit("mao");
    reveal_strlit("pg");
    reveal_strlit("jobs");
    reveal_strlit("brucelee");
    reveal_strlit("kk");
    reveal_strlit("mao-zedong");
    reveal_strlit("paul-graham");
    reveal_strlit("steve-jobs");
    reveal_strlit("bruce-lee");
    reveal_strlit("kevin-kelly");
}

/// Index of the first persona at or after `i` whose slug is `slug`.
pub open spec fn slug_index_from(ps: Seq<WisdomPersona>, slug: Seq<char>, i: int) -> Option<int>
    decreases ps.len() - i,
{
    if i < 0 || i >= ps.len() {
        None
    } else if ps[i].slug@ == slug {
        Some(i)
    } else {
        slug_index_from(ps, slug, i + 1)
    }
}

/// Index of the persona a (possibly legacy) slug names.
pub open spec fn slug_index(ps: Seq<WisdomPersona>, slug: Seq<char>) -> Option<int> {
    slug_index_from(ps, normalize_slug(slug), 0)
}

/// The personas named by the first `n` slugs, in the order given; unknown
/// slugs are dropped.
pub open spec fn filtered_upto(ps: Seq<WisdomPersona>, slugs: Seq<Seq<char>>, n: int) -> Seq<WisdomPersona>
    decreases n,
{
    if n <= 0 || n > slugs.len() {
        Seq::empty()
    } else {
        let prev = filtered_upto(ps, slugs, n - 1);
        match slug_index(ps, slugs[n - 1]) {
            Some(k) => prev.push(ps[k]),
            None => prev,
        }
    }
}

/// Number of stub personas `test_registry(n)` makes.
pub open spec fn test_count(n: int) -> int {
    if n < 6 {
        n
    } else {
        6
    }
}

/// The `k`-th (0-based) stub persona of `test_registry`.
pub open spec fn is_test_persona(p: WisdomPersona, k: int) -> bool {
    let d = decimal((k + 1) as nat);
    &&& p.slug@ == "test-persona-"@ + d
    &&& p.name@ == "Test Persona "@ + d
    &&& p.title@ == "Advisor "@ + d
    &&& p.worldview@.len() == 0
    &&& p.philosophy@.len() == 0
    &&& p.values@.len() == 0
    &&& p.methodology@.len() == 0
    &&& p.situations@.len() == 0
    &&& p.voice.first_person_markers@.len() == 0
    &&& p.voice.metaphor_domains@.len() == 0
    &&& p.voice.sentence_patterns@.len() == 0
    &&& p.voice.forbidden_patterns@.len() == 0
    &&& p.cadence == Cadence::Unset
    &&& p.lifeline_md is None
    &&& p.helping_signature_md is None
    &&& p.consistency_audit_md is None
    &&& p.lifeline_phases@.len() == 0
    &&& p.legacy_prompt matches Some(l) && l@ == "You are "@ + p.name@ + ". You are a "@ + p.title@
}

/// Maps a legacy short persona id to its slug; other ids are unchanged.
pub fn normalize_persona_slug(slug: &str) -> (r: String)
    ensures
        r@ == normalize_slug(slug@),
{
    if str_eq(slug, "mao") {
        owned("mao-zedong")
    } else if str_eq(slug, "pg") {
        owned("paul-graham")
    } else if str_eq(slug, "jobs") {
        owned("steve-jobs")
    } else if str_eq(slug, "brucelee") {
        owned("bruce-lee")
    } else if str_eq(slug, "kk") {
        owned("kevin-kelly")
    } else {
        owned(slug)
    }
}

fn stub_persona(k: u64) -> (p: WisdomPersona)
    requires
        k < 6,
    ensures
        is_test_persona(p, k as int),
{
    let mut slug = owned("test-persona-");
    push_decimal(&mut slug, k + 1);
    let mut name = owned("Test Persona ");
    push_decimal(&mut name, k + 1);
    let mut title = owned("Advisor ");
    push_decimal(&mut title, k + 1);
    let mut legacy = owned("You are ");
    legacy.append(name.as_str());
    legacy.append(". You are a ");
    legacy.append(title.as_str());
    WisdomPersona {
        slug,
        name,
        title,
        worldview: String::new(),
        philosophy: String::new(),
        values: String::new(),
        methodology: String::new(),
        situations: Vec::new(),
        voice: VoiceTexture::default(),
        cadence: Cadence::Unset,
        lifeline_md: None,
        helping_signature_md: None,
        consistency_audit_md: None,
        lifeline_phases: Vec::new(),
        legacy_prompt: Some(legacy),
    }
}

impl PersonaRegistry {
    /// A registry holding `personas`, in that order.
    pub fn from_personas(personas: Vec<WisdomPersona>) -> (r: Self)
        ensures
            r@ == personas@,
    {
        PersonaRegistry { personas }
    }

    /// A registry of `min(n, 6)` stub personas `test-persona-1`, ... with a
    /// one-line legacy prompt each.
    pub fn test_registry(n: usize) -> (r: Self)
        ensures
            r@.len() == test_count(n as int),
            forall|k: int| 0 <= k < r@.len() ==> is_test_persona(#[trigger] r@[k], k),
    {
        let m: u64 = if n < 6 {
            n as u64
        } else {
            6
        };
        let mut personas: Vec<WisdomPersona> = Vec::new();
        let mut k: u64 = 0;
        while k < m
            invariant
                k <= m,
                m == test_count(n as int),
                personas@.len() == k,
                forall|j: int| 0 <= j < k ==> is_test_persona(#[trigger] personas@[j], j),
            decreases m - k,
        {
            personas.push(stub_persona(k));
            k = k + 1;
        }
        PersonaRegistry { personas }
    }

    /// All personas, in load order.
    pub fn all(&self) -> (r: &[WisdomPersona])
        ensures
            r@ == self@,
    {
        self.personas.as_slice()
    }

    fn index_of(&self, slug: &str) -> (r: Option<usize>)
        ensures
            r matches Some(k) ==> slug_index(self@, slug@) == Some(k as int),
            r is None ==> slug_index(self@, slug@) is None,
    {
        let target = normalize_persona_slug(slug);
        let mut i: usize = 0;
        while i < self.personas.len()
            invariant
                i <= self.personas@.len(),
                target@ == normalize_slug(slug@),
                slug_index_from(self.personas@, target@, 0) == slug_index_from(
                    self.personas@,
                    target@,
                    i as int,
                ),
            decreases self.personas.len() - i,
        {
            if self.personas[i].slug == target {
                return Some(i);
            }
            i = i + 1;
        }
        None
    }

    /// The persona with the given slug; legacy short ids (`pg`, `mao`, ...)
    /// are accepted.
    pub fn get(&self, slug: &str) -> (r: Option<&WisdomPersona>)
        ensures
            match slug_index(self@, slug@) {
                Some(k) => r matches Some(p) && *p == self@[k],
                None => r is None,
            },
    {
        match self.index_of(slug) {
            Some(k) => {
                proof {
                    lemma_slug_index_from_bounds(self@, normalize_slug(slug@), 0);
                }
                assert(k < self.personas@.len());
                let p = &self.personas[k];
                assert(*p == self@[k as int]);
                Some(p)
            },
            None => None,
        }
    }

    /// The personas named by `slugs`, in the caller's order; unknown slugs
    /// are dropped, and no slugs give no personas.
    pub fn filtered(&self, slugs: &[String]) -> (r: Vec<&WisdomPersona>)
        ensures
            r@.len() == filtered_upto(self@, string_views(slugs@), slugs@.len() as int).len(),
            forall|i: int|
                0 <= i < r@.len() ==> *r@[i] == filtered_upto(
                    self@,
                    string_views(slugs@),
                    slugs@.len() as int,
                )[i],
    {
        let ghost sv = string_views(slugs@);
        let mut out: Vec<&WisdomPersona> = Vec::new();
        let mut i: usize = 0;
        while i < slugs.len()
            invariant
                i <= slugs@.len(),
                sv == string_views(slugs@),
                out@.len() == filtered_upto(self@, sv, i as int).len(),
                forall|j: int|
                    0 <= j < out@.len() ==> *out@[j] == filtered_upto(self@, sv, i as int)[j],
            decreases slugs.len() - i,
        {
            assert(sv[i as int] == slugs@[i as int]@);
            match self.get(slugs[i].as_str()) {
                Some(p) => {
                    out.push(p);
                },
                None => {},
            }
            i = i + 1;
        }
        out
    }

    /// `(slug, name, title, short description)` of each persona, in order.
    pub fn as_tuples(&self) -> (r: Vec<(String, String, String, String)>)
        ensures
            r@.len() == self@.len(),
            forall|i: int|
                0 <= i < r@.len() ==> {
                    let t = #[trigger] r@[i];
                    &&& t.0@ == self@[i].slug@
                    &&& t.1@ == self@[i].name@
                    &&& t.2@ == self@[i].title@
                    &&& t.3@ == short_description_of(self@[i])
                },
    {
        let mut out: Vec<(String, String, String, String)> = Vec::new();
        let mut i: usize = 0;
        while i < self.personas.len()
            invariant
                i <= self.personas@.len(),
                out@.len() == i,
                forall|j: int|
                    0 <= j < i ==> {
                        let t = #[trigger] out@[j];
                        &&& t.0@ == self.personas@[j].slug@
                        &&& t.1@ == self.personas@[j].name@
                        &&& t.2@ == self.personas@[j].title@
                        &&& t.3@ == short_description_of(self.personas@[j])
                    },
            decreases self.personas.len() - i,
        {
            let p = &self.personas[i];
            out.push((p.slug.clone(), p.name.clone(), p.title.clone(), p.short_description()));
            i = i + 1;
        }
        out
    }

    /// Number of loaded personas.
    pub fn len(&self) -> (r: usize)
        ensures
            r == self@.len(),
    {
        self.personas.len()
    }

    /// Whether no persona is loaded.
    pub fn is_empty(&self) -> (r: bool)
        ensures
            r == (self@.len() == 0),
    {
        self.personas.len() == 0
    }
}

proof fn lemma_slug_index_from_bounds(ps: Seq<WisdomPersona>, slug: Seq<char>, i: int)
    ensures
        slug_index_from(ps, slug, i) matches Some(k) ==> 0 <= k < ps.len() && ps[k].slug@ == slug,
    decreases ps.len() - i,
{
    if i >= 0 && i < ps.len() && ps[i].slug@ != slug {
        lemma_slug_index_from_bounds(ps, slug, i + 1);
    }
}

/// The advisors active in a session: those its pick file names, in that
/// order, or the whole registry when it names none.
pub fn active_personas<'a>(registry: &'a PersonaRegistry, slugs: &[String]) -> (r: Vec<
    &'a WisdomPersona,
>)
    ensures
        slugs@.len() == 0 ==> r@.len() == registry@.len() && forall|i: int|
            0 <= i < r@.len() ==> *r@[i] == registry@[i],
        slugs@.len() > 0 ==> r@.len() == filtered_upto(
            registry@,
            string_views(slugs@),
            slugs@.len() as int,
        ).len() && forall|i: int|
            0 <= i < r@.len() ==> *r@[i] == filtered_upto(
                registry@,
                string_views(slugs@),
                slugs@.len() as int,
            )[i],
{
    if slugs.len() == 0 {
        let all = registry.all();
        let mut out: Vec<&WisdomPersona> = Vec::new();
        let mut i: usize = 0;
        while i < all.len()
            invariant
                i <= all@.len(),
                all@ == registry@,
                out@.len() == i,
                forall|j: int| 0 <= j < i ==> *out@[j] == registry@[j],
            decreases all.len() - i,
        {
            out.push(&all[i]);
            i = i + 1;
        }
        out
    } else {
        registry.filtered(slugs)
    }
}

// ---------------------------------------------------------------------------
// Loading the registry
// ---------------------------------------------------------------------------

/// A persona's display name when it has no `persona.json`: its slug with
/// dashes as spaces.
pub open spec fn name_from_slug(slug: Seq<char>) -> Seq<char> {
    slug.map_values(|c: char| if c == '-' {
        ' '
    } else {
        c
    })
}

/// The display name derived from a slug (see `name_from_slug`).
pub fn default_persona_name(slug: &str) -> (r: String)
    ensures
        r@ == name_from_slug(slug@),
{
    let cs = chars_of(slug);
    let mut out: Vec<char> = Vec::new();
    let mut i: usize = 0;
    while i < cs.len()
        invariant
            i <= cs@.len(),
            cs@ == slug@,
            out@ == name_from_slug(slug@.take(i as int)),
        decreases cs.len() - i,
    {
        let c = cs[i];
        out.push(if c == '-' {
            ' '
        } else {
            c
        });
        assert(slug@.take(i + 1) =~= slug@.take(i as int).push(c));
        i = i + 1;
    }
    assert(slug@.take(cs@.len() as int) =~= slug@);
    string_of(&out)
}

/// The persona allow-list of a `COUNSEL_PERSONAS`-style value: its
/// comma-separated, trimmed, non-empty entries; none (no filter) when the
/// value is blank.
pub open spec fn persona_filter_of(value: Seq<char>) -> Option<Seq<Seq<char>>> {
    if trim(value).len() == 0 {
        None
    } else {
        Some(crate::flow::nonblank_trimmed(
            crate::steps::split_on(value, ","@),
            crate::steps::split_on(value, ","@).len() as int,
        ))
    }
}

/// Parses a persona allow-list (see `persona_filter_of`).
pub fn persona_filter(value: &str) -> (r: Option<Vec<String>>)
    ensures
        match persona_filter_of(value@) {
            Some(v) => r matches Some(x) && string_views(x@) == v,
            None => r is None,
        },
{
    let cs = chars_of(value);
    if trim_vec(&cs).len() == 0 {
        return None;
    }
    proof {
        reveal_strlit(",");
    }
    let pieces = crate::steps::split_on_exec(&cs, ",");
    let ghost ps = crate::steps::split_on(value@, ","@);
    let mut out: Vec<String> = Vec::new();
    let mut i: usize = 0;
    while i < pieces.len()
        invariant
            i <= pieces@.len(),
            views(pieces@) == ps,
            string_views(out@) == crate::flow::nonblank_trimmed(ps, i as int),
        decreases pieces.len() - i,
    {
        assert(ps[i as int] == pieces@[i as int]@);
        let t = trim_vec(&pieces[i]);
        if t.len() > 0 {
            out.push(string_of(&t));
            assert(string_views(out@) =~= crate::flow::nonblank_trimmed(ps, i as int).push(t@));
        }
        i = i + 1;
    }
    Some(out)
}

/// Whether a skills sub-directory is loaded: its name does not start with
/// `_`, and the allow-list, when there is one, names it.
pub fn persona_dir_included(name: &str, filter: &Option<Vec<String>>) -> (r: bool)
    ensures
        r == (!starts_with(name@, "_"@) && match filter {
            Some(v) => string_views(v@).contains(name@),
            None => true,
        }),
{
    if crate::text::starts_with_str(&chars_of(name), "_") {
        return false;
    }
    match filter {
        None => true,
        Some(v) => {
            let mut i: usize = 0;
            let mut found = false;
            while i < v.len() && !found
                invariant
                    i <= v@.len(),
                    found ==> i < v@.len() && v@[i as int]@ == name@,
                    forall|j: int| 0 <= j < i ==> v@[j]@ != name@,
                decreases v.len() - i + if found {
                    0int
                } else {
                    1int
                },
            {
                if crate::text::str_eq(v[i].as_str(), name) {
                    found = true;
                } else {
                    i = i + 1;
                }
            }
            if found {
                assert(string_views(v@)[i as int] == name@);
            } else {
                assert forall|j: int| 0 <= j < v@.len() implies string_views(v@)[j] != name@ by {
                    assert(string_views(v@)[j] == v@[j]@);
                }
            }
            found
        },
    }
}

/// The phases of `lifeline.md` (see `parse_lifeline_phases`), or none when a
/// heading's age marker cannot be cut out (its offset in the lowercased
/// heading does not fall on a character boundary of the heading).
pub fn lifeline_phases_of(content: &str) -> (r: Option<Vec<LifelinePhase>>)
    ensures
        lifeline_ok(content@) ==> (r matches Some(v) && phase_views(v@) == phases_upto(
            lines(content@),
            lines(content@).len() as int,
        )),
        !lifeline_ok(content@) ==> r is None,
{
    if lifeline_ok_exec(content) {
        Some(parse_lifeline_phases(content))
    } else {
        None
    }
}

/// The age range of a heading (see `extract_age_range`), or none when its
/// age marker cannot be cut out; `Some(None)` when it has no age range.
pub fn age_range_of(line: &str) -> (r: Option<Option<(i32, Option<i32>)>>)
    ensures
        age_cut_ok(line@) ==> r == Some(age_range(line@)),
        !age_cut_ok(line@) ==> r is None,
{
    if age_cut_ok_exec(line) {
        Some(extract_age_range(line))
    } else {
        None
    }
}

} // verus!
