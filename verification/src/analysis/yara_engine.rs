//! Signature scanning with YARA-X rules: compiling the rule sources, and
//! turning the rules that match a buffer into a finding.
use crate::text::{decimal, push_decimal, push_str, str_eq};
use vstd::prelude::*;
use vstd::string::*;

verus! {

/// A YARA-X compiler, into which rule sources are added.
#[verifier::external_type_specification]
#[verifier::external_body]
pub struct ExCompiler<'a>(yara_x::Compiler<'a>);

/// A compiled YARA-X rule set.
#[verifier::external_type_specification]
#[verifier::external_body]
pub struct ExRules(yara_x::Rules);

/// The rule sources added to a compiler so far, in order, whether or not
/// they compiled: what the compiler holds.
pub uninterp spec fn compiler_sources(c: yara_x::Compiler) -> Seq<Seq<char>>;

/// The rule sources that a rule set was built from.
pub uninterp spec fn rules_sources(r: yara_x::Rules) -> Seq<Seq<char>>;

/// Whether yara-x, with `include` statements refused, compiles `source`
/// when it is added after the sources `earlier` (which decide, for
/// instance, which identifiers are taken).
pub uninterp spec fn yara_source_compiles(earlier: Seq<Seq<char>>, source: Seq<char>) -> bool;

/// What a scan of `data` with the rules built from `sources` (with
/// `include` statements refused) finds: the
/// identifier and namespace of each matching rule, in yara-x's order, or
/// `None` when the scan fails.
pub uninterp spec fn yara_scan(sources: Seq<Seq<char>>, data: Seq<u8>) -> Option<
    Seq<(Seq<char>, Seq<char>)>,
>;

/// A new, empty compiler (`yara_x::Compiler::new`) that refuses `include`
/// statements (`enable_includes(false)`), so that what it compiles depends
/// on the sources added and nothing on disk; it holds no source.
#[verifier::external_body]
fn compiler_new<'a>() -> (c: yara_x::Compiler<'a>)
    ensures
        compiler_sources(c) == Seq::<Seq<char>>::empty(),
{
    let mut c = yara_x::Compiler::new();
    c.enable_includes(false);
    c
}

/// Adds rule source code to a compiler (`yara_x::Compiler::add_source`);
/// `true` when it compiled. The compiler keeps the source either way (the
/// rules of it that compiled stay in the rule set), and whether it
/// compiles is the named function of the sources added before and the
/// source.
#[verifier::external_body]
fn compiler_add_source(compiler: &mut yara_x::Compiler, source: &str) -> (ok: bool)
    ensures
        compiler_sources(*final(compiler)) == compiler_sources(*old(compiler)).push(source@),
        ok == yara_source_compiles(compiler_sources(*old(compiler)), source@),
{
    compiler.add_source(source).is_ok()
}

/// Builds the rules added so far (`yara_x::Compiler::build`); the rule set
/// is that of the compiler's sources.
#[verifier::external_body]
fn compiler_build(compiler: yara_x::Compiler) -> (r: yara_x::Rules)
    ensures
        rules_sources(r) == compiler_sources(compiler),
{
    compiler.build()
}

/// The identifier and namespace of each rule match.
pub open spec fn match_pairs(v: Seq<RuleMatch>) -> Seq<(Seq<char>, Seq<char>)> {
    v.map_values(|m: RuleMatch| (m.rule@, m.namespace@))
}

/// Scans `data` with `rules` (`yara_x::Scanner::new` and `scan`) and
/// returns the identifier and namespace of each matching rule, or `None`
/// when the scan failed: the named scan result of the rules' sources and
/// the data.
#[verifier::external_body]
fn scan_matching_rules(rules: &yara_x::Rules, data: &[u8]) -> (r: Option<Vec<RuleMatch>>)
    ensures
        match r {
            Some(v) => yara_scan(rules_sources(*rules), data@) == Some(match_pairs(v@)),
            None => yara_scan(rules_sources(*rules), data@) is None,
        },
{
    let mut scanner = yara_x::Scanner::new(rules);
    match scanner.scan(data) {
        Ok(results) => Some(
            results.matching_rules().map(
                |r| RuleMatch { rule: r.identifier().to_string(), namespace: r.namespace().to_string() },
            ).collect(),
        ),
        Err(_) => None,
    }
}

/// A rule that matched.
pub struct RuleMatch {
    /// The rule's identifier.
    pub rule: String,
    /// The rule's namespace.
    pub namespace: String,
}

/// Whether a file extension marks a YARA rule file ("yar" or "yara").
pub fn is_rule_file_extension(ext: &str) -> (r: bool)
    ensures
        r == (ext@ == "yar"@ || ext@ == "yara"@),
{
    str_eq(ext, "yar") || str_eq(ext, "yara")
}

/// The finding of a signature scan of one file.
pub struct YaraReport {
    /// Whether any rule matched.
    pub flagged: bool,
    /// 8 when a rule matched, 0 otherwise.
    pub severity: u8,
    /// The rules that matched.
    pub matches: Vec<RuleMatch>,
    /// Human-readable summary.
    pub summary: String,
}

/// The summary of a scan of `filename` in which `n` rules matched.
pub open spec fn yara_summary(filename: Seq<char>, n: nat) -> Seq<char> {
    if n > 0 {
        "🚨 "@ + decimal(n) + " YARA signature(s) matched in '"@ + filename + "'"@
    } else {
        "✅ No YARA signatures matched in '"@ + filename + "'"@
    }
}

/// The finding for `filename` given the rules that matched it: flagged with
/// severity 8 when any matched, clean with severity 0 otherwise.
pub fn yara_report(filename: &str, matches: Vec<RuleMatch>) -> (r: YaraReport)
    ensures
        r.flagged == (matches@.len() > 0),
        r.severity == (if matches@.len() > 0 {
            8u8
        } else {
            0u8
        }),
        r.matches@ == matches@,
        r.summary@ == yara_summary(filename@, matches@.len()),
{
    let n = matches.len();
    let flagged = n > 0;
    let summary = if flagged {
        let mut s = String::from_str("🚨 ");
        push_decimal(&mut s, n as u64);
        push_str(&mut s, " YARA signature(s) matched in '");
        push_str(&mut s, filename);
        push_str(&mut s, "'");
        s
    } else {
        let mut s = String::from_str("✅ No YARA signatures matched in '");
        push_str(&mut s, filename);
        push_str(&mut s, "'");
        s
    };
    YaraReport { flagged, severity: if flagged { 8 } else { 0 }, matches, summary }
}

/// The texts of a list of sources.
pub open spec fn source_texts(v: Seq<String>) -> Seq<Seq<char>> {
    v.map_values(|t: String| t@)
}

/// For each source, whether it compiled when the sources were added in
/// order.
pub open spec fn source_flags(sources: Seq<Seq<char>>) -> Seq<bool>
    decreases sources.len(),
{
    if sources.len() == 0 {
        Seq::empty()
    } else {
        source_flags(sources.drop_last()).push(
            yara_source_compiles(sources.drop_last(), sources.last()),
        )
    }
}

/// The rule that stands in when no source compiles; it never matches.
pub open spec fn placeholder_rule() -> Seq<char> {
    "rule dummy { condition: false }"@
}

/// The sources an engine made from `sources` is built from: all of them,
/// and the placeholder rule after them when none compiled.
pub open spec fn engine_sources(sources: Seq<Seq<char>>) -> Seq<Seq<char>> {
    if source_flags(sources).contains(true) {
        sources
    } else {
        sources.push(placeholder_rule())
    }
}

/// The YARA-X signature scanning engine.
pub struct YaraEngine {
    rules: yara_x::Rules,
}

impl YaraEngine {
    /// The rule sources the engine was built from.
    pub closed spec fn sources(self) -> Seq<Seq<char>> {
        rules_sources(self.rules)
    }

    /// Compiles the given rule sources into an engine. Sources that do not
    /// compile are skipped; when none compiles, a rule that never matches
    /// stands in, so that the rule set is never empty. Returns the engine
    /// and, for each source, whether it compiled.
    pub fn new(sources: &Vec<String>) -> (r: (YaraEngine, Vec<bool>))
        ensures
            r.1@ == source_flags(source_texts(sources@)),
            r.0.sources() == engine_sources(source_texts(sources@)),
    {
        let ghost texts = source_texts(sources@);
        let mut compiler = compiler_new();
        let mut accepted: Vec<bool> = Vec::new();
        let mut has_rules = false;
        let mut i: usize = 0;
        while i < sources.len()
            invariant
                i <= sources@.len(),
                texts == source_texts(sources@),
                compiler_sources(compiler) == texts.subrange(0, i as int),
                accepted@ == source_flags(texts.subrange(0, i as int)),
                has_rules == accepted@.contains(true),
            decreases sources@.len() - i,
        {
            let ghost pre = texts.subrange(0, i as int);
            let ok = compiler_add_source(&mut compiler, sources[i].as_str());
            proof {
                let nxt = texts.subrange(0, i + 1);
                assert(nxt.drop_last() =~= pre);
                assert(nxt.last() == sources@[i as int]@);
                assert(pre.push(sources@[i as int]@) =~= nxt);
            }
            let ghost before = accepted@;
            if ok {
                has_rules = true;
            }
            accepted.push(ok);
            proof {
                assert(accepted@ == before.push(ok));
                if ok {
                    assert(accepted@[accepted@.len() - 1] == true);
                } else if accepted@.contains(true) {
                    let j = choose|j: int| 0 <= j < accepted@.len() && accepted@[j] == true;
                    assert(before[j] == true);
                }
                if before.contains(true) {
                    let j = choose|j: int| 0 <= j < before.len() && before[j] == true;
                    assert(accepted@[j] == true);
                }
            }
            i = i + 1;
        }
        assert(texts.subrange(0, sources@.len() as int) =~= texts);
        if !has_rules {
            compiler_add_source(&mut compiler, "rule dummy { condition: false }");
        }
        (YaraEngine { rules: compiler_build(compiler) }, accepted)
    }

    /// Scans a file's contents and reports the rules that matched it: those
    /// of the named scan result of the engine's sources and the data (a
    /// scan that fails counts as one in which no rule matched).
    pub fn scan_buffer(&self, filename: &str, data: &[u8]) -> (r: YaraReport)
        ensures
            match_pairs(r.matches@) == match yara_scan(self.sources(), data@) {
                Some(m) => m,
                None => Seq::empty(),
            },
            r.flagged == (r.matches@.len() > 0),
            r.severity == (if r.flagged {
                8u8
            } else {
                0u8
            }),
            r.summary@ == yara_summary(filename@, r.matches@.len()),
    {
        let matches = match scan_matching_rules(&self.rules, data) {
            Some(m) => m,
            None => Vec::new(),
        };
        proof {
            if yara_scan(self.sources(), data@) is None {
                assert(match_pairs(matches@) =~= Seq::<(Seq<char>, Seq<char>)>::empty());
            }
        }
        yara_report(filename, matches)
    }
}

} // verus!
