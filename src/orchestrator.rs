//! The synthesis orchestrator: input validation, voice resolution, the cache
//! lookup and the fixed-order fallback over synthesis strategies. It decides;
//! the caller performs each step and reports its outcome.
use vstd::prelude::*;
use crate::cache::cache_key_spec;
use crate::catalog::{first_speaker, selected_voice, TTSEngine, VoiceInfo};
use crate::error::SynthesisError;
use crate::text::{owned, seq_starts_with};

verus! {

/// The operating-system family whose native speech utility is the last resort.
#[derive(Debug, PartialEq, Eq, Structural, Clone, Copy)]
pub enum PlatformKind {
    Android,
    MacOS,
    Windows,
    Generic,
}

/// One way of producing speech audio.
#[derive(Debug, PartialEq, Eq, Structural, Clone, Copy)]
pub enum Strategy {
    /// The remote service over its realtime socket.
    RemoteApi,
    /// The remote service's command-line tool.
    RemoteCli,
    /// A local speech engine (espeak-ng, then flite).
    LocalEngine,
    /// The platform's own speech utility.
    Native(PlatformKind),
}

/// The strategies tried on a platform, in order.
pub open spec fn strategy_plan(p: PlatformKind) -> Seq<Strategy> {
    if p == PlatformKind::Generic {
        seq![Strategy::RemoteApi, Strategy::RemoteCli, Strategy::LocalEngine]
    } else {
        seq![Strategy::RemoteApi, Strategy::RemoteCli, Strategy::LocalEngine, Strategy::Native(p)]
    }
}

/// The name under which a strategy is reported.
pub open spec fn strategy_name_spec(s: Strategy) -> Seq<char> {
    match s {
        Strategy::RemoteApi => "remote speech API"@,
        Strategy::RemoteCli => "remote speech CLI"@,
        Strategy::LocalEngine => "local speech engine"@,
        Strategy::Native(PlatformKind::Android) => "Android speech"@,
        Strategy::Native(PlatformKind::MacOS) => "macOS speech"@,
        Strategy::Native(PlatformKind::Windows) => "Windows speech"@,
        Strategy::Native(PlatformKind::Generic) => "system speech"@,
    }
}

/// The name under which a strategy is reported.
pub fn strategy_name(s: Strategy) -> (r: &'static str)
    ensures
        r@ == strategy_name_spec(s),
{
    match s {
        Strategy::RemoteApi => "remote speech API",
        Strategy::RemoteCli => "remote speech CLI",
        Strategy::LocalEngine => "local speech engine",
        Strategy::Native(PlatformKind::Android) => "Android speech",
        Strategy::Native(PlatformKind::MacOS) => "macOS speech",
        Strategy::Native(PlatformKind::Windows) => "Windows speech",
        Strategy::Native(PlatformKind::Generic) => "system speech",
    }
}

/// The strategies tried on a platform, in order.
pub fn plan_for(p: PlatformKind) -> (r: Vec<Strategy>)
    ensures
        r@ == strategy_plan(p),
{
    let mut v: Vec<Strategy> = Vec::new();
    v.push(Strategy::RemoteApi);
    v.push(Strategy::RemoteCli);
    v.push(Strategy::LocalEngine);
    if p != PlatformKind::Generic {
        v.push(Strategy::Native(p));
    }
    assert(v@ =~= strategy_plan(p));
    v
}

/// The report of one failed strategy: its name, `: `, and the reason.
pub open spec fn failure_line(s: Strategy, reason: Seq<char>) -> Seq<char> {
    strategy_name_spec(s) + ": "@ + reason
}

/// Unicode white space, as `char::is_whitespace` defines it.
pub open spec fn is_white(c: char) -> bool {
    ('\u{9}' <= c && c <= '\u{d}') || c == ' ' || c == '\u{85}' || c == '\u{a0}' || c == '\u{1680}'
        || ('\u{2000}' <= c && c <= '\u{200a}') || c == '\u{2028}' || c == '\u{2029}' || c
        == '\u{202f}' || c == '\u{205f}' || c == '\u{3000}'
}

/// Every character of `s` is white space.
pub open spec fn is_blank(s: Seq<char>) -> bool {
    forall|i: int| 0 <= i < s.len() ==> is_white(s[i])
}

/// Whether `c` is Unicode white space.
pub fn is_white_char(c: char) -> (r: bool)
    ensures
        r == is_white(c),
{
    ('\u{9}' <= c && c <= '\u{d}') || c == ' ' || c == '\u{85}' || c == '\u{a0}' || c == '\u{1680}'
        || ('\u{2000}' <= c && c <= '\u{200a}') || c == '\u{2028}' || c == '\u{2029}' || c
        == '\u{202f}' || c == '\u{205f}' || c == '\u{3000}'
}

/// Whether `s` is empty or holds only white space.
pub fn is_blank_text(s: &str) -> (r: bool)
    ensures
        r == is_blank(s@),
{
    let n = s.unicode_len();
    let mut i: usize = 0;
    while i < n
        invariant
            n == s@.len(),
            i <= n,
            forall|j: int| 0 <= j < i ==> is_white(s@[j]),
        decreases n - i,
    {
        if !is_white_char(s.get_char(i)) {
            return false;
        }
        i = i + 1;
    }
    true
}

/// Where a synthesis stands.
#[derive(Debug, PartialEq, Eq, Structural, Clone, Copy)]
pub enum Phase {
    /// Waiting for the cache lookup.
    AwaitingCache,
    /// Waiting for the outcome of the strategy at this index of the plan.
    Trying(usize),
    /// Waiting for the write-through to the cache.
    Storing,
    /// Nothing left to do.
    Finished,
}

/// What the caller is to do next.
#[derive(Debug)]
pub enum Step {
    /// Look up the audio cached under this key.
    LookupCache(String),
    /// Run this strategy for the synthesis's text and voice.
    Run(Strategy),
    /// Write these bytes to the cache under this key; a failure is only logged.
    Store(String, Vec<u8>),
    /// The synthesis is over, with this outcome.
    Done(Result<Vec<u8>, SynthesisError>),
}

/// One call of the orchestrator: the text, the resolved voice, its cache key,
/// the strategies to try and what they reported.
#[derive(Debug)]
pub struct Synthesis {
    pub text: String,
    pub voice: VoiceInfo,
    pub key: String,
    pub plan: Vec<Strategy>,
    pub failures: Vec<String>,
    pub audio: Vec<u8>,
    pub phase: Phase,
}

impl Synthesis {
    /// The bookkeeping that every phase keeps.
    pub open spec fn wf(&self) -> bool {
        &&& self.plan@.len() > 0
        &&& self.key@ == cache_key_spec(self.text@, self.voice.edge_voice@)
        &&& self.failures@.len() <= self.plan@.len()
        &&& forall|j: int|
            0 <= j < self.failures@.len() ==> seq_starts_with(
                #[trigger] self.failures@[j]@,
                strategy_name_spec(self.plan@[j]) + ": "@,
            )
        &&& match self.phase {
            Phase::AwaitingCache => self.failures@.len() == 0,
            Phase::Trying(i) => i < self.plan@.len() && self.failures@.len() == i,
            Phase::Storing => self.audio@.len() > 0,
            Phase::Finished => true,
        }
    }

    /// Reports the cache lookup: a hit ends the synthesis with the cached
    /// bytes, a miss starts the first strategy.
    pub fn on_cache_lookup(&mut self, cached: Option<Vec<u8>>) -> (r: Step)
        requires
            old(self).wf(),
            old(self).phase == Phase::AwaitingCache,
        ensures
            final(self).wf(),
            final(self).text == old(self).text,
            final(self).voice == old(self).voice,
            final(self).plan == old(self).plan,
            final(self).key == old(self).key,
            cached matches Some(b) ==> final(self).phase == Phase::Finished && (r matches Step::Done(
                Ok(a),
            ) && a == b),
            cached is None ==> final(self).phase == Phase::Trying(0) && (r matches Step::Run(s) && s
                == old(self).plan@[0]),
    {
        match cached {
            Some(b) => {
                self.phase = Phase::Finished;
                Step::Done(Ok(b))
            },
            None => {
                self.phase = Phase::Trying(0);
                Step::Run(self.plan[0])
            },
        }
    }

    /// Reports the outcome of the strategy being tried. Audio moves on to the
    /// cache write; a failure, or empty audio, moves on to the next strategy,
    /// and after the last one ends the synthesis with every failure listed.
    pub fn on_strategy_result(&mut self, result: Result<Vec<u8>, String>) -> (r: Step)
        requires
            old(self).wf(),
            old(self).phase is Trying,
        ensures
            final(self).wf(),
            final(self).text == old(self).text,
            final(self).voice == old(self).voice,
            final(self).plan == old(self).plan,
            final(self).key == old(self).key,
            ({
                let i = old(self).phase->Trying_0 as int;
                let n = old(self).plan@.len();
                match result {
                    Ok(a) if a@.len() > 0 => final(self).phase == Phase::Storing && final(self).audio@
                        == a@ && (r matches Step::Store(k, b) && k == old(self).key && b@ == a@),
                    _ => {
                        &&& final(self).failures@.len() == i + 1
                        &&& final(self).failures@.subrange(0, i) == old(self).failures@
                        &&& (result matches Err(e) ==> final(self).failures@[i]@ == failure_line(
                            old(self).plan@[i],
                            e@,
                        ))
                        &&& (i + 1 < n ==> final(self).phase == Phase::Trying((i + 1) as usize) && (r matches Step::Run(s) && s == old(self).plan@[i + 1]))
                        &&& (i + 1 == n ==> final(self).phase == Phase::Finished && (r matches Step::Done(Err(SynthesisError::AllMethodsFailed(l))) && l@ == final(self).failures@))
                    },
                }
            }),
    {
        let i = match self.phase {
            Phase::Trying(i) => i,
            _ => 0,
        };
        let reason: String = match result {
            Ok(a) => {
                if a.len() > 0 {
                    self.audio = a;
                    self.phase = Phase::Storing;
                    let k = self.key.clone();
                    let b = self.audio.clone();
                    assert(b@ =~= self.audio@);
                    return Step::Store(k, b);
                }
                String::from_str("no audio produced")
            },
            Err(e) => e,
        };
        let st = self.plan[i];
        let mut line = owned(strategy_name(st));
        line.append(": ");
        line.append(reason.as_str());
        proof {
            let pre = strategy_name_spec(st) + ": "@;
            assert(line@.subrange(0, pre.len() as int) =~= pre);
        }
        let ghost before = self.failures@;
        self.failures.push(line);
        assert forall|j: int| 0 <= j < self.failures@.len() implies seq_starts_with(
            #[trigger] self.failures@[j]@,
            strategy_name_spec(self.plan@[j]) + ": "@,
        ) by {
            if j < before.len() {
                assert(self.failures@[j] == before[j]);
            }
        }
        assert(self.failures@.subrange(0, i as int) =~= before);
        if i < self.plan.len() - 1 {
            self.phase = Phase::Trying(i + 1);
            Step::Run(self.plan[i + 1])
        } else {
            self.phase = Phase::Finished;
            let l = self.failures.clone();
            assert(l@ =~= self.failures@);
            Step::Done(Err(SynthesisError::AllMethodsFailed(l)))
        }
    }

    /// Reports that the cache write is over, whatever its outcome: the
    /// synthesis ends with the audio.
    pub fn on_stored(&mut self) -> (r: Step)
        requires
            old(self).wf(),
            old(self).phase == Phase::Storing,
        ensures
            final(self).wf(),
            final(self).phase == Phase::Finished,
            r matches Step::Done(Ok(a)) && a == old(self).audio && a@.len() > 0,
    {
        let mut a: Vec<u8> = Vec::new();
        std::mem::swap(&mut a, &mut self.audio);
        self.phase = Phase::Finished;
        Step::Done(Ok(a))
    }
}

impl TTSEngine {
    /// Starts synthesizing `text` in `language` on `platform`. Blank text is
    /// refused at once; otherwise the voice is resolved from the catalog, the
    /// cache key computed, and the first step is the cache lookup.
    pub fn synthesize_speech(&self, text: &str, language: &str, platform: PlatformKind) -> (r: Result<
        (Synthesis, Step),
        SynthesisError,
    >)
        ensures
            is_blank(text@) ==> r matches Err(SynthesisError::EmptyInput),
            !is_blank(text@) ==> (r matches Ok((s, step)) && {
                &&& s.wf()
                &&& s.phase == Phase::AwaitingCache
                &&& s.text@ == text@
                &&& selected_voice(self.voices@, language@, s.voice)
                &&& s.key@ == cache_key_spec(text@, s.voice.edge_voice@)
                &&& s.plan@ == strategy_plan(platform)
                &&& s.failures@.len() == 0
                &&& (step matches Step::LookupCache(k) && k@ == s.key@)
            }),
    {
        if is_blank_text(text) {
            return Err(SynthesisError::EmptyInput);
        }
        let voice = self.select_voice_for_language(language);
        let key = self.generate_cache_key(text, voice.edge_voice.as_str());
        let k2 = key.clone();
        let s = Synthesis {
            text: owned(text),
            voice,
            key,
            plan: plan_for(platform),
            failures: Vec::new(),
            audio: Vec::new(),
            phase: Phase::AwaitingCache,
        };
        Ok((s, Step::LookupCache(k2)))
    }
}

/// When every strategy of the plan has failed, the failures name each
/// strategy of the plan, one entry apiece and in plan order.
pub proof fn lemma_exhaustion_names_every_strategy(s: Synthesis)
    requires
        s.wf(),
        s.failures@.len() == s.plan@.len(),
    ensures
        forall|j: int|
            0 <= j < s.plan@.len() ==> seq_starts_with(
                #[trigger] s.failures@[j]@,
                strategy_name_spec(s.plan@[j]) + ": "@,
            ),
{
}

proof fn lemma_first_speaker_unique(vs: Seq<VoiceInfo>, key: Seq<char>, i: int, j: int)
    requires
        first_speaker(vs, key, i),
        first_speaker(vs, key, j),
    ensures
        i == j,
{
    if i < j {
        assert(!crate::catalog::speaks(vs[i], key));
    } else if j < i {
        assert(!crate::catalog::speaks(vs[j], key));
    }
}

/// Two syntheses of the same text in the same language over the same
/// catalog resolve the same voice (its id, locale and language) and look up the same cache key; so once
/// the first has stored its audio, the second finds it in the cache.
pub proof fn lemma_same_input_same_cache_key(
    vs: Seq<VoiceInfo>,
    text: Seq<char>,
    language: Seq<char>,
    v1: VoiceInfo,
    v2: VoiceInfo,
)
    requires
        selected_voice(vs, language, v1),
        selected_voice(vs, language, v2),
    ensures
        v1.edge_voice@ == v2.edge_voice@,
        v1.locale@ == v2.locale@,
        v1.language@ == v2.language@,
        cache_key_spec(text, v1.edge_voice@) == cache_key_spec(text, v2.edge_voice@),
{
    let k = crate::text::lower_of(language);
    if crate::catalog::any_speaks(vs, k) {
        let i = choose|i: int| first_speaker(vs, k, i) && v1 == vs[i];
        let j = choose|j: int| first_speaker(vs, k, j) && v2 == vs[j];
        lemma_first_speaker_unique(vs, k, i, j);
    } else if crate::catalog::any_speaks(vs, "english"@) {
        let i = choose|i: int| first_speaker(vs, "english"@, i) && v1 == vs[i];
        let j = choose|j: int| first_speaker(vs, "english"@, j) && v2 == vs[j];
        lemma_first_speaker_unique(vs, "english"@, i, j);
    }
}

/// The remediation hints shown when every strategy has failed.
pub const REMEDIATION_HINTS: &'static str = "\nRecommendations:\n  * Check the internet connection for the remote speech API\n  * Ensure network access to speech.platform.bing.com\n  * Install a local engine: apt install espeak-ng (Linux) or brew install espeak (macOS)\n  * Enable the system text-to-speech service in the device settings";

/// Each failure on a line of its own.
pub open spec fn failure_lines(ls: Seq<Seq<char>>) -> Seq<char>
    decreases ls.len(),
{
    if ls.len() == 0 {
        Seq::empty()
    } else {
        failure_lines(ls.drop_last()) + "\n  - "@ + ls.last()
    }
}

/// The report of a synthesis on which every strategy failed: a heading,
/// one line per strategy with its reason, then the remediation hints.
pub open spec fn exhaustion_report_spec(failures: Seq<Seq<char>>) -> Seq<char> {
    "All speech synthesis methods failed:"@ + failure_lines(failures) + REMEDIATION_HINTS@
}

/// The report of a synthesis on which every strategy failed: a heading,
/// one line per strategy with its reason, then the remediation hints.
pub fn exhaustion_report(failures: &[String]) -> (r: String)
    ensures
        r@ == exhaustion_report_spec(failures@.map_values(|s: String| s@)),
{
    let ghost fv = failures@.map_values(|s: String| s@);
    let mut out = String::from_str("All speech synthesis methods failed:");
    let mut i: usize = 0;
    while i < failures.len()
        invariant
            i <= failures@.len(),
            fv == failures@.map_values(|s: String| s@),
            out@ == "All speech synthesis methods failed:"@ + failure_lines(fv.subrange(0, i as int)),
        decreases failures@.len() - i,
    {
        proof {
            assert(fv.subrange(0, i + 1).drop_last() =~= fv.subrange(0, i as int));
            assert(fv.subrange(0, i + 1).last() == failures@[i as int]@);
        }
        out.append("\n  - ");
        out.append(failures[i].as_str());
        i = i + 1;
    }
    assert(fv.subrange(0, failures@.len() as int) =~= fv);
    out.append(REMEDIATION_HINTS);
    out
}

} // verus!
