//! The realtime speech protocol: frame builders, identifiers and the
//! per-attempt session state machine.
use vstd::prelude::*;
use crate::error::SynthesisError;
use crate::frames::{frame_audio, strip_frame_header};
use crate::text::{seq_contains, str_contains};

verus! {

/// Address of the voice list of the remote speech service.
pub const VOICES_URL: &'static str = "https://speech.platform.bing.com/consumer/speech/synthesize/readaloud/voices/list?trustedclienttoken=6A5AA1D4EAFF4E9FB37E23D68491D6F4";

/// Address of the realtime synthesis endpoint, up to the connection id.
pub const SOCKET_URL_BASE: &'static str = "wss://speech.platform.bing.com/consumer/speech/synthesize/readaloud/edge/v1?TrustedClientToken=6A5AA1D4EAFF4E9FB37E23D68491D6F4&ConnectionId=";

/// Text-frame marker of the end of a turn.
pub const TURN_END_MARKER: &'static str = "Path:turn.end";

/// Text-frame marker of response metadata.
pub const RESPONSE_MARKER: &'static str = "Path:response";

/// The JSON body of the configuration frame.
pub const CONFIG_BODY: &'static str = "{\"context\":{\"synthesis\":{\"audio\":{\"metadataoptions\":{\"sentenceBoundaryEnabled\":false,\"wordBoundaryEnabled\":false},\"outputFormat\":\"audio-24khz-48kbitrate-mono-mp3\"}}}}";

/// A `Key:Value` header line.
pub open spec fn header_line(key: Seq<char>, value: Seq<char>) -> Seq<char> {
    key + ":"@ + value + "\r\n"@
}

/// The configuration frame sent right after connecting.
pub open spec fn config_frame_spec(timestamp: Seq<char>) -> Seq<char> {
    header_line("X-Timestamp"@, timestamp) + header_line(
        "Content-Type"@,
        "application/json; charset=utf-8"@,
    ) + header_line("Path"@, "speech.config"@) + "\r\n"@ + CONFIG_BODY@
}

/// The synthesis frame carrying the speech markup.
pub open spec fn ssml_frame_spec(request_id: Seq<char>, timestamp: Seq<char>, ssml: Seq<char>) -> Seq<char> {
    header_line("X-RequestId"@, request_id) + header_line("Content-Type"@, "application/ssml+xml"@)
        + header_line("X-Timestamp"@, timestamp) + header_line("Path"@, "ssml"@) + "\r\n"@ + ssml
}

/// What one character becomes inside speech markup.
pub open spec fn escape_char(c: char) -> Seq<char> {
    if c == '&' {
        seq!['&', 'a', 'm', 'p', ';']
    } else if c == '<' {
        seq!['&', 'l', 't', ';']
    } else if c == '>' {
        seq!['&', 'g', 't', ';']
    } else if c == '"' {
        seq!['&', 'q', 'u', 'o', 't', ';']
    } else if c == '\'' {
        seq!['&', 'a', 'p', 'o', 's', ';']
    } else {
        seq![c]
    }
}

/// Text escaped for embedding in speech markup.
pub open spec fn escape_markup_spec(s: Seq<char>) -> Seq<char>
    decreases s.len(),
{
    if s.len() == 0 {
        Seq::empty()
    } else {
        escape_markup_spec(s.drop_last()) + escape_char(s.last())
    }
}

/// The speech-markup envelope for `text`, spoken by `voice` in `locale`.
pub open spec fn ssml_spec(text: Seq<char>, locale: Seq<char>, voice: Seq<char>) -> Seq<char> {
    "<speak version='1.0' xmlns='http://www.w3.org/2001/10/synthesis' xml:lang='"@ + locale
        + "'><voice name='"@ + voice + "'>"@ + escape_markup_spec(text) + "</voice></speak>"@
}

/// Appends a `Key:Value` header line.
fn push_header(out: &mut String, key: &str, value: &str)
    ensures
        final(out)@ == old(out)@ + header_line(key@, value@),
{
    out.append(key);
    out.append(":");
    out.append(value);
    out.append("\r\n");
}

/// The configuration frame: timestamp, content type, the `speech.config` path
/// and a body that turns boundary metadata off and asks for mp3 audio.
pub fn config_frame(timestamp: &str) -> (r: String)
    ensures
        r@ == config_frame_spec(timestamp@),
{
    let mut out = String::new();
    push_header(&mut out, "X-Timestamp", timestamp);
    push_header(&mut out, "Content-Type", "application/json; charset=utf-8");
    push_header(&mut out, "Path", "speech.config");
    out.append("\r\n");
    out.append(CONFIG_BODY);
    assert(out@ =~= config_frame_spec(timestamp@));
    out
}

/// The synthesis frame: request id, markup content type, timestamp, the
/// `ssml` path, then the markup.
pub fn ssml_frame(request_id: &str, timestamp: &str, ssml: &str) -> (r: String)
    ensures
        r@ == ssml_frame_spec(request_id@, timestamp@, ssml@),
{
    let mut out = String::new();
    push_header(&mut out, "X-RequestId", request_id);
    push_header(&mut out, "Content-Type", "application/ssml+xml");
    push_header(&mut out, "X-Timestamp", timestamp);
    push_header(&mut out, "Path", "ssml");
    out.append("\r\n");
    out.append(ssml);
    assert(out@ =~= ssml_frame_spec(request_id@, timestamp@, ssml@));
    out
}

/// Escapes `&`, `<`, `>`, `"` and `'` for embedding in speech markup.
pub fn escape_markup(text: &str) -> (r: String)
    ensures
        r@ == escape_markup_spec(text@),
{
    let n = text.unicode_len();
    let mut out: Vec<char> = Vec::new();
    let mut i: usize = 0;
    while i < n
        invariant
            n == text@.len(),
            i <= n,
            out@ == escape_markup_spec(text@.subrange(0, i as int)),
        decreases n - i,
    {
        let c = text.get_char(i);
        proof {
            let s = text@.subrange(0, i + 1);
            assert(s.drop_last() =~= text@.subrange(0, i as int));
        }
        if c == '&' {
            out.push('&');
            out.push('a');
            out.push('m');
            out.push('p');
            out.push(';');
        } else if c == '<' {
            out.push('&');
            out.push('l');
            out.push('t');
            out.push(';');
        } else if c == '>' {
            out.push('&');
            out.push('g');
            out.push('t');
            out.push(';');
        } else if c == '"' {
            out.push('&');
            out.push('q');
            out.push('u');
            out.push('o');
            out.push('t');
            out.push(';');
        } else if c == '\'' {
            out.push('&');
            out.push('a');
            out.push('p');
            out.push('o');
            out.push('s');
            out.push(';');
        } else {
            out.push(c);
        }
        assert(out@ =~= escape_markup_spec(text@.subrange(0, i + 1)));
        i = i + 1;
    }
    assert(text@.subrange(0, n as int) =~= text@);
    crate::text::string_of_chars(out.as_slice())
}

/// The speech-markup envelope naming the locale and voice, around the escaped text.
pub fn generate_ssml(text: &str, locale: &str, voice: &str) -> (r: String)
    ensures
        r@ == ssml_spec(text@, locale@, voice@),
{
    let escaped = escape_markup(text);
    let mut out = String::from_str(
        "<speak version='1.0' xmlns='http://www.w3.org/2001/10/synthesis' xml:lang='",
    );
    out.append(locale);
    out.append("'><voice name='");
    out.append(voice);
    out.append("'>");
    out.append(escaped.as_str());
    out.append("</voice></speak>");
    assert(out@ =~= ssml_spec(text@, locale@, voice@));
    out
}

/// The socket address for a connection id.
pub fn connection_url(connection_id: &str) -> (r: String)
    ensures
        r@ == SOCKET_URL_BASE@ + connection_id@,
{
    let mut out = String::from_str(SOCKET_URL_BASE);
    out.append(connection_id);
    out
}

/// A lowercase hexadecimal digit.
pub open spec fn is_hex_digit(c: char) -> bool {
    ('0' <= c && c <= '9') || ('a' <= c && c <= 'f')
}

/// The text form of a version-4 UUID: 36 characters, hyphens at 8, 13, 18
/// and 23, lowercase hexadecimal digits elsewhere.
pub open spec fn is_hyphenated_uuid(s: Seq<char>) -> bool {
    &&& s.len() == 36
    &&& forall|i: int|
        0 <= i < 36 ==> if i == 8 || i == 13 || i == 18 || i == 23 {
            s[i] == '-'
        } else {
            is_hex_digit(s[i])
        }
}

/// A protocol identifier: 32 lowercase hexadecimal digits.
pub open spec fn is_protocol_id(s: Seq<char>) -> bool {
    s.len() == 32 && forall|i: int| 0 <= i < 32 ==> is_hex_digit(s[i])
}

/// Relies on `uuid::Uuid::new_v4` and its `Display`, which writes the
/// hyphenated lowercase form.
#[verifier::external_body]
fn random_uuid_text() -> (r: String)
    ensures
        is_hyphenated_uuid(r@),
{
    uuid::Uuid::new_v4().to_string()
}

/// `s` with its hyphens removed.
pub open spec fn without_hyphens(s: Seq<char>) -> Seq<char>
    decreases s.len(),
{
    if s.len() == 0 {
        s
    } else if s.last() == '-' {
        without_hyphens(s.drop_last())
    } else {
        without_hyphens(s.drop_last()).push(s.last())
    }
}

/// The protocol identifier of a UUID in hyphenated text form: its hex digits.
pub fn protocol_id_of(uuid: &str) -> (r: String)
    requires
        is_hyphenated_uuid(uuid@),
    ensures
        r@ == without_hyphens(uuid@),
        is_protocol_id(r@),
{
    let mut out: Vec<char> = Vec::new();
    let mut i: usize = 0;
    while i < 36
        invariant
            is_hyphenated_uuid(uuid@),
            i <= 36,
            out@ == without_hyphens(uuid@.subrange(0, i as int)),
            out@.len() == i - (if i > 23 { 4int } else if i > 18 { 3int } else if i > 13 { 2int } else if i > 8 { 1int } else { 0int }),
            forall|j: int| 0 <= j < out@.len() ==> is_hex_digit(out@[j]),
        decreases 36 - i,
    {
        let c = uuid.get_char(i);
        proof {
            assert(uuid@.subrange(0, i + 1).drop_last() =~= uuid@.subrange(0, i as int));
        }
        if c != '-' {
            out.push(c);
        }
        i = i + 1;
    }
    assert(uuid@.subrange(0, 36) =~= uuid@);
    crate::text::string_of_chars(out.as_slice())
}

/// A fresh random identifier: a version-4 UUID with its hyphens removed.
pub fn fresh_id() -> (r: String)
    ensures
        is_protocol_id(r@),
        exists|u: Seq<char>| is_hyphenated_uuid(u) && r@ == without_hyphens(u),
{
    let u = random_uuid_text();
    protocol_id_of(u.as_str())
}

/// Relies on `chrono::Utc::now` and its `format`: the current UTC time as
/// `YYYY-MM-DDTHH:MM:SS.mmmZ`. Nothing is promised of the value.
#[verifier::external_body]
pub(crate) fn timestamp_now() -> (r: String) {
    chrono::Utc::now().format("%Y-%m-%dT%H:%M:%S.%3fZ").to_string()
}

/// The states of one synthesis attempt.
#[derive(Debug)]
pub enum SessionState {
    Idle,
    Connecting,
    ConfigSent,
    SynthesisRequested,
    ReceivingAudio,
    Complete,
    Failed(SynthesisError),
}

/// One synthesis attempt over the realtime socket. It is driven by the
/// caller, which performs the socket work and reports what happened.
#[derive(Debug)]
pub struct SpeechSession {
    pub request_id: String,
    pub connection_id: String,
    pub state: SessionState,
    pub audio: Vec<u8>,
    /// The timestamp written into the last frame sent.
    pub last_timestamp: String,
}

/// A state in which inbound frames are consumed.
pub open spec fn is_receiving(s: SessionState) -> bool {
    s is SynthesisRequested || s is ReceivingAudio
}

/// A state from which no transition leads.
pub open spec fn is_terminal(s: SessionState) -> bool {
    s is Complete || s is Failed
}

impl SpeechSession {
    /// Complete only with audio; audio only once a request went out.
    pub open spec fn wf(&self) -> bool {
        &&& self.state is Complete ==> self.audio@.len() > 0
        &&& (self.state is Idle || self.state is Connecting || self.state is ConfigSent)
            ==> self.audio@.len() == 0
    }

    /// A new attempt with fresh request and connection identifiers.
    pub fn new() -> (r: SpeechSession)
        ensures
            r.wf(),
            r.state is Idle,
            r.audio@.len() == 0,
            is_protocol_id(r.request_id@),
            is_protocol_id(r.connection_id@),
            exists|u: Seq<char>| is_hyphenated_uuid(u) && r.request_id@ == without_hyphens(u),
            exists|u: Seq<char>| is_hyphenated_uuid(u) && r.connection_id@ == without_hyphens(u),
    {
        SpeechSession {
            request_id: fresh_id(),
            connection_id: fresh_id(),
            state: SessionState::Idle,
            audio: Vec::new(),
            last_timestamp: String::new(),
        }
    }

    /// Starts connecting: returns the socket address to open.
    pub fn begin(&mut self) -> (r: Option<String>)
        requires
            old(self).wf(),
        ensures
            final(self).wf(),
            final(self).audio == old(self).audio,
            final(self).request_id == old(self).request_id,
            final(self).connection_id == old(self).connection_id,
            old(self).state is Idle ==> (final(self).state is Connecting && (r matches Some(u)
                && u@ == SOCKET_URL_BASE@ + old(self).connection_id@)),
            !(old(self).state is Idle) ==> r is None && final(self).state == old(self).state,
    {
        if let SessionState::Idle = self.state {
            self.state = SessionState::Connecting;
            Some(connection_url(self.connection_id.as_str()))
        } else {
            None
        }
    }

    /// The socket is open: returns the configuration frame to send, stamped now.
    pub fn connected(&mut self) -> (r: Option<String>)
        requires
            old(self).wf(),
        ensures
            final(self).wf(),
            final(self).audio == old(self).audio,
            final(self).request_id == old(self).request_id,
            final(self).connection_id == old(self).connection_id,
            old(self).state is Connecting ==> (final(self).state is ConfigSent && (r matches Some(f)
                && f@ == config_frame_spec(final(self).last_timestamp@))),
            !(old(self).state is Connecting) ==> r is None && final(self).state == old(self).state
                && final(self).last_timestamp == old(self).last_timestamp,
    {
        if let SessionState::Connecting = self.state {
            self.state = SessionState::ConfigSent;
            self.last_timestamp = timestamp_now();
            Some(config_frame(self.last_timestamp.as_str()))
        } else {
            None
        }
    }

    /// The configuration went out: returns the synthesis frame for `text`,
    /// spoken by `voice` in `locale`, stamped now.
    pub fn request(&mut self, text: &str, locale: &str, voice: &str) -> (r: Option<String>)
        requires
            old(self).wf(),
        ensures
            final(self).wf(),
            final(self).audio == old(self).audio,
            final(self).request_id == old(self).request_id,
            final(self).connection_id == old(self).connection_id,
            old(self).state is ConfigSent ==> (final(self).state is SynthesisRequested && (r matches Some(f)
                && f@ == ssml_frame_spec(old(self).request_id@, final(self).last_timestamp@, ssml_spec(text@, locale@, voice@)))),
            !(old(self).state is ConfigSent) ==> r is None && final(self).state == old(self).state
                && final(self).last_timestamp == old(self).last_timestamp,
    {
        if let SessionState::ConfigSent = self.state {
            self.state = SessionState::SynthesisRequested;
            self.last_timestamp = timestamp_now();
            let ssml = generate_ssml(text, locale, voice);
            Some(ssml_frame(self.request_id.as_str(), self.last_timestamp.as_str(), ssml.as_str()))
        } else {
            None
        }
    }

    /// A text frame arrived. The turn-end marker completes the attempt when
    /// audio has arrived and fails it with a protocol error when none has;
    /// any other text frame is ignored.
    pub fn on_text(&mut self, frame: &str)
        requires
            old(self).wf(),
        ensures
            final(self).wf(),
            final(self).audio == old(self).audio,
            final(self).request_id == old(self).request_id,
            final(self).connection_id == old(self).connection_id,
            !is_receiving(old(self).state) ==> final(self).state == old(self).state,
            is_receiving(old(self).state) ==> {
                if seq_contains(frame@, TURN_END_MARKER@) {
                    if old(self).audio@.len() > 0 {
                        final(self).state is Complete
                    } else {
                        final(self).state matches SessionState::Failed(SynthesisError::Protocol(_))
                    }
                } else {
                    final(self).state is ReceivingAudio
                }
            },
    {
        if let SessionState::SynthesisRequested | SessionState::ReceivingAudio = self.state {
            if str_contains(frame, TURN_END_MARKER) {
                if self.audio.len() > 0 {
                    self.state = SessionState::Complete;
                } else {
                    self.state = SessionState::Failed(
                        SynthesisError::Protocol(String::from_str("no audio data received")),
                    );
                }
            } else {
                self.state = SessionState::ReceivingAudio;
            }
        }
    }

    /// A binary frame arrived: its audio, with the header stripped, is appended.
    pub fn on_binary(&mut self, data: &[u8])
        requires
            old(self).wf(),
        ensures
            final(self).wf(),
            final(self).request_id == old(self).request_id,
            final(self).connection_id == old(self).connection_id,
            final(self).last_timestamp == old(self).last_timestamp,
            !is_receiving(old(self).state) ==> final(self).state == old(self).state && final(self).audio
                == old(self).audio,
            is_receiving(old(self).state) ==> final(self).state is ReceivingAudio && final(self).audio@
                == old(self).audio@ + frame_audio(data@),
    {
        if let SessionState::SynthesisRequested | SessionState::ReceivingAudio = self.state {
            self.state = SessionState::ReceivingAudio;
            let part = strip_frame_header(data);
            let mut i: usize = 0;
            let ghost before = self.audio@;
            while i < part.len()
                invariant
                    i <= part@.len(),
                    self.audio@ == before + part@.subrange(0, i as int),
                    self.state is ReceivingAudio,
                    self.request_id == old(self).request_id,
                    self.connection_id == old(self).connection_id,
                    self.last_timestamp == old(self).last_timestamp,
                decreases part@.len() - i,
            {
                self.audio.push(part[i]);
                i = i + 1;
                assert(part@.subrange(0, i as int) == part@.subrange(0, i - 1).push(part@[i - 1]));
            }
            assert(part@.subrange(0, part@.len() as int) =~= part@);
        }
    }

    /// The socket closed. Before the turn ended this fails the attempt.
    pub fn on_closed(&mut self)
        requires
            old(self).wf(),
        ensures
            final(self).wf(),
            final(self).audio == old(self).audio,
            is_terminal(old(self).state) ==> final(self).state == old(self).state,
            !is_terminal(old(self).state) ==> final(self).state matches SessionState::Failed(
                SynthesisError::Protocol(_),
            ),
    {
        match self.state {
            SessionState::Complete | SessionState::Failed(_) => {},
            _ => {
                self.state = SessionState::Failed(
                    SynthesisError::Protocol(String::from_str("synthesis did not complete properly")),
                );
            },
        }
    }

    /// Connecting, sending or receiving failed with `detail`.
    pub fn on_transport_error(&mut self, detail: &str)
        requires
            old(self).wf(),
        ensures
            final(self).wf(),
            final(self).audio == old(self).audio,
            is_terminal(old(self).state) ==> final(self).state == old(self).state,
            !is_terminal(old(self).state) ==> (final(self).state matches SessionState::Failed(
                SynthesisError::Network(d),
            ) && d@ == detail@),
    {
        match self.state {
            SessionState::Complete | SessionState::Failed(_) => {},
            _ => {
                self.state = SessionState::Failed(SynthesisError::Network(String::from_str(detail)));
            },
        }
    }

    /// Whether the attempt has ended, well or badly.
    pub fn is_finished(&self) -> (r: bool)
        ensures
            r == is_terminal(self.state),
    {
        match self.state {
            SessionState::Complete | SessionState::Failed(_) => true,
            _ => false,
        }
    }

    /// The outcome: the audio of a completed attempt, the error of a failed
    /// one, and a protocol error for an attempt that never finished.
    pub fn finish(self) -> (r: Result<Vec<u8>, SynthesisError>)
        requires
            self.wf(),
        ensures
            self.state is Complete ==> (r matches Ok(a) && a@ == self.audio@ && a@.len() > 0),
            r is Ok ==> self.state is Complete,
            self.state matches SessionState::Failed(e) ==> (r matches Err(x) && x == e),
            !is_terminal(self.state) ==> r matches Err(SynthesisError::Protocol(_)),
    {
        match self.state {
            SessionState::Complete => Ok(self.audio),
            SessionState::Failed(e) => Err(e),
            _ => Err(SynthesisError::Protocol(String::from_str("synthesis did not complete properly"))),
        }
    }
}

/// However frames arrive, a session never completes without audio: any
/// state reached through its transitions that is `Complete` holds audio.
pub proof fn lemma_complete_has_audio(s: SpeechSession)
    requires
        s.wf(),
        s.state is Complete,
    ensures
        s.audio@.len() > 0,
{
}

} // verus!
