//! The clipboard protection pipeline.
//!
//! The monitor watches the clipboard through values its caller reads for
//! it: each poll hands the current content in, and the monitor decides —
//! by hash comparison, surrogate recognition and sensitivity
//! classification — whether to seal it. Sealing is split around the one
//! write the caller must make: `check_clipboard_change` classifies and
//! encrypts, the caller writes the Base64 surrogate to the system
//! clipboard, and `commit_seal` records the payload and issues a
//! destruction ticket. A ticket is due only while the payload it names is
//! still the one held, so a newer copy turns an older, scheduled
//! destruction into a no-op.

use crate::config::Config;
use crate::crypto::{open_of, seal_of, CryptoEngine, CryptoError, EncryptedData};
use crate::hash::{bytes_eq, content_hash, spec_content_hash, str_eq};
use crate::memory::SecureMemory;
use vstd::prelude::*;

verus! {

/// Ways a clipboard operation can fail.
#[derive(Debug)]
pub enum ClipboardError {
    /// The clipboard could not be opened.
    AccessFailed(String),
    /// The content could not be read.
    ReadFailed(String),
    /// The content could not be written.
    WriteFailed(String),
    /// A cryptographic operation failed.
    CryptoError(CryptoError),
    /// The monitor is not initialized.
    NotInitialized,
    /// The monitor has stopped.
    Stopped,
}

impl ClipboardError {
    /// A short description of the failure.
    pub fn message(&self) -> (r: &'static str)
        ensures
            r@.len() > 0,
    {
        let r = match self {
            ClipboardError::AccessFailed(_) => "clipboard access failed",
            ClipboardError::ReadFailed(_) => "clipboard read failed",
            ClipboardError::WriteFailed(_) => "clipboard write failed",
            ClipboardError::CryptoError(_) => "cryptographic operation failed",
            ClipboardError::NotInitialized => "clipboard monitor not initialized",
            ClipboardError::Stopped => "clipboard monitor stopped",
        };
        proof {
            reveal_strlit("clipboard access failed");
            reveal_strlit("clipboard read failed");
            reveal_strlit("clipboard write failed");
            reveal_strlit("cryptographic operation failed");
            reveal_strlit("clipboard monitor not initialized");
            reveal_strlit("clipboard monitor stopped");
        }
        r
    }
}

/// The kind of content on the clipboard.
#[derive(Debug, Clone, Copy, PartialEq, Eq, Structural)]
pub enum ContentType {
    /// Plain text.
    Text,
    /// An image.
    Image,
    /// File paths.
    Files,
    /// Anything else.
    Unknown,
}

/// Why the clipboard was cleared.
#[derive(Debug, Clone, Copy, PartialEq, Eq, Structural)]
pub enum ClearReason {
    /// The destruct countdown ran out.
    TimerExpired,
    /// The user asked for a clear.
    ManualClear,
    /// The emergency trigger fired.
    EmergencyNuke,
    /// The program is shutting down.
    Shutdown,
}

/// An operation the history records.
#[derive(Debug, Clone, Copy, PartialEq, Eq, Structural)]
pub enum ClipboardOperation {
    /// Content was copied and sealed.
    Copy,
    /// Content was pasted.
    Paste,
    /// The clipboard was cleared.
    Clear(ClearReason),
}

/// Whether two operations are of the same kind, whatever a clear's reason.
pub open spec fn same_operation_kind(a: ClipboardOperation, b: ClipboardOperation) -> bool {
    match a {
        ClipboardOperation::Copy => b is Copy,
        ClipboardOperation::Paste => b is Paste,
        ClipboardOperation::Clear(_) => b is Clear,
    }
}

/// A lifecycle event the monitor emits.
#[derive(Debug, Clone)]
pub enum ClipboardEvent {
    /// Sensitive content was copied and sealed.
    ContentCopied {
        /// The plaintext length, in bytes.
        length: usize,
        /// The kind of content.
        content_type: ContentType,
        /// When it was sealed, in milliseconds.
        timestamp_ms: u64,
    },
    /// Content was pasted.
    ContentPasted {
        /// When it was pasted, in milliseconds.
        timestamp_ms: u64,
    },
    /// The clipboard was cleared.
    ContentCleared {
        /// Why it was cleared.
        reason: ClearReason,
        /// When it was cleared, in milliseconds.
        timestamp_ms: u64,
    },
}

/// One entry of the rolling operation history.
#[derive(Debug)]
pub struct ClipboardHistoryItem {
    /// When the operation happened, in milliseconds.
    pub timestamp_ms: u64,
    /// The content length, in bytes.
    pub length: usize,
    /// The kind of content.
    pub content_type: ContentType,
    /// The operation recorded.
    pub operation: ClipboardOperation,
    /// The plaintext, for copies, so a scheduled destruction can find it.
    pub content: Option<String>,
}

/// The monitor's readable state.
#[derive(Debug, Clone, Copy, PartialEq, Eq, Structural)]
pub struct ClipboardState {
    /// Whether the monitor runs.
    pub is_running: bool,
    /// When the content last changed, in milliseconds.
    pub last_change_ms: Option<u64>,
    /// The length of the sealed payload now held, in bytes; zero without
    /// one.
    pub encrypted_content_length: usize,
    /// When monitoring started, in milliseconds.
    pub start_time_ms: u64,
    /// How many sealing events the monitor has handled.
    pub total_events: u64,
}

/// Whether the pattern is a regular expression the `regex` crate compiles.
/// Uninterpreted: compilation depends on the pattern alone.
pub uninterp spec fn pattern_compiles(pattern: Seq<char>) -> bool;

/// Whether the compiled pattern matches somewhere in the text.
/// Uninterpreted: the answer is a pure function of pattern and text.
pub uninterp spec fn regex_matches(pattern: Seq<char>, text: Seq<char>) -> bool;

/// Relies on `regex::Regex::new` and `regex::Regex::is_match`: whether a
/// pattern compiles depends on the pattern alone, and whether it matches
/// depends on the pattern and the text alone.
#[verifier::external_body]
fn regex_match_with(pattern: &str, text: &str) -> (r: Option<bool>)
    ensures
        r is Some <==> pattern_compiles(pattern@),
        r is Some ==> r->0 == regex_matches(pattern@, text@),
{
    match regex::Regex::new(pattern) {
        Ok(re) => Some(re.is_match(text)),
        Err(_) => None,
    }
}

/// Whether the needle occurs as a contiguous substring of the text.
pub open spec fn contains_substring(text: Seq<char>, needle: Seq<char>) -> bool {
    exists|i: int|
        0 <= i <= text.len() - needle.len() && #[trigger] text.subrange(i, i + needle.len() as int)
            == needle
}

/// Relies on std's `str::contains` with a string pattern: true exactly when
/// the needle occurs as a contiguous substring of the text.
#[verifier::external_body]
fn str_contains(text: &str, needle: &str) -> (r: bool)
    ensures
        r == contains_substring(text@, needle@),
{
    text.contains(needle)
}

/// What classifies content as sensitive: nothing when the content or the
/// pattern is empty; the pattern as a regular expression where it compiles;
/// plain substring search as the fallback where it does not.
pub open spec fn spec_sensitive(pattern: Seq<char>, content: Seq<char>) -> bool {
    if content.len() == 0 || pattern.len() == 0 {
        false
    } else if pattern_compiles(pattern) {
        regex_matches(pattern, content)
    } else {
        contains_substring(content, pattern)
    }
}

/// Whether two optional payloads hold the same nonce and ciphertext.
pub open spec fn payload_like(a: Option<EncryptedData>, b: Option<EncryptedData>) -> bool {
    match a {
        Option::None => b is None,
        Option::Some(x) => match b {
            Option::Some(y) => x.spec_nonce() == y.spec_nonce() && x.spec_ciphertext()
                == y.spec_ciphertext(),
            Option::None => false,
        },
    }
}

/// Whether two optional payload values hold the same bytes.
fn eq_payload(a: &Option<EncryptedData>, b: &Option<EncryptedData>) -> (r: bool)
    ensures
        r == payload_like(*a, *b),
{
    match (a, b) {
        (Option::Some(x), Option::Some(y)) => {
            bytes_eq(x.nonce(), y.nonce()) && bytes_eq(x.ciphertext(), y.ciphertext())
        },
        (Option::None, Option::None) => true,
        _ => false,
    }
}

/// A sealing prepared but not yet committed: the payload, the surrogate the
/// caller must write to the system clipboard, and the plaintext that
/// triggered it.
pub struct PendingSeal {
    payload: EncryptedData,
    surrogate: String,
    content: String,
}

impl PendingSeal {
    /// The sealed payload.
    pub closed spec fn spec_payload(&self) -> EncryptedData {
        self.payload
    }

    /// The Base64 surrogate.
    pub closed spec fn spec_surrogate(&self) -> Seq<char> {
        self.surrogate@
    }

    /// The plaintext that triggered the sealing.
    pub closed spec fn spec_content(&self) -> Seq<char> {
        self.content@
    }

    /// The surrogate encodes the payload, whose size fits in memory.
    pub open spec fn wf(&self) -> bool {
        &&& self.spec_payload().wf()
        &&& self.spec_surrogate() == crate::base64::b64_encode(self.spec_payload().combined())
        &&& self.spec_payload().combined().len() <= usize::MAX
    }

    /// The surrogate text, to write to the system clipboard.
    pub fn surrogate_text(&self) -> (r: &str)
        ensures
            r@ == self.spec_surrogate(),
    {
        self.surrogate.as_str()
    }
}

/// What one poll of the clipboard led to.
pub enum CheckOutcome {
    /// Nothing new: empty clipboard or unchanged content.
    NoChange,
    /// The monitor's own surrogate is on the clipboard; a paste is awaited.
    OurSurrogate,
    /// New content that is not sensitive; only the hash was updated.
    NotSensitive,
    /// New sensitive content, sealed; write the surrogate, then commit.
    Seal(PendingSeal),
}

/// A ticket a scheduled destruction carries: the payload it was issued
/// against and the plaintext whose history entries it purges.
pub struct DestructionTicket {
    payload: Option<EncryptedData>,
    content: String,
}

impl DestructionTicket {
    /// The payload the ticket was issued against.
    pub closed spec fn spec_payload(&self) -> Option<EncryptedData> {
        self.payload
    }

    /// The plaintext whose history entries the destruction purges.
    pub closed spec fn spec_content(&self) -> Seq<char> {
        self.content@
    }
}

/// Whether a history entry survives a purge of the given content: entries
/// holding exactly that content go, all others stay.
pub open spec fn keeps_content(it: ClipboardHistoryItem, content: Seq<char>) -> bool {
    !(it.content matches Some(s) && s@ == content)
}

/// A history with every entry holding exactly this content removed.
pub open spec fn purge_content(h: Seq<ClipboardHistoryItem>, content: Seq<char>) -> Seq<
    ClipboardHistoryItem,
> {
    h.filter(|it: ClipboardHistoryItem| keeps_content(it, content))
}

/// A history with every entry older than the thirty-second retention window
/// removed, as of the given moment.
pub open spec fn recent_history(h: Seq<ClipboardHistoryItem>, now_ms: u64) -> Seq<
    ClipboardHistoryItem,
> {
    h.filter(
        |it: ClipboardHistoryItem| now_ms < it.timestamp_ms || now_ms - it.timestamp_ms < 30000,
    )
}

/// A history with every entry of the given operation kind removed.
pub open spec fn history_without_kind(
    h: Seq<ClipboardHistoryItem>,
    operation: ClipboardOperation,
) -> Seq<ClipboardHistoryItem> {
    h.filter(|it: ClipboardHistoryItem| !same_operation_kind(it.operation, operation))
}

/// Relies on std's `String::from_utf8`: succeeds exactly on valid UTF-8 and
/// decodes those bytes to the characters they encode.
#[verifier::external_body]
fn string_from_utf8(bytes: Vec<u8>) -> (r: Option<String>)
    ensures
        r is Some <==> vstd::utf8::valid_utf8(bytes@),
        r is Some ==> r->0@ == vstd::utf8::decode_utf8(bytes@),
{
    String::from_utf8(bytes).ok()
}

/// Whether the monitor's surrogate is held and is exactly this content.
pub open spec fn surrogate_reflected(m: ClipboardMonitor, content: Seq<char>) -> bool {
    m.spec_surrogate() matches Some(s) && s == content
}

/// Whether a poll outcome is a well-formed sealing of this content under
/// this key: the pending payload's ciphertext seals the content's bytes
/// under the payload's nonce, and opens back to them.
pub open spec fn sealed_outcome(
    key: Seq<u8>,
    content: Seq<char>,
    r: Result<CheckOutcome, ClipboardError>,
) -> bool {
    r matches Ok(o) && o matches CheckOutcome::Seal(p) && p.wf() && p.spec_content() == content
        && p.spec_payload().spec_ciphertext() == seal_of(
        key,
        p.spec_payload().spec_nonce(),
        vstd::utf8::encode_utf8(content),
    ) && p.spec_payload().spec_ciphertext().len() == vstd::utf8::encode_utf8(content).len() + 16
        && open_of(key, p.spec_payload().spec_nonce(), p.spec_payload().spec_ciphertext()) == Some(
        vstd::utf8::encode_utf8(content),
    )
}

/// Whether a destruction ticket is due on a monitor: exactly when the
/// payload held is the one the ticket was issued against.
pub open spec fn spec_destruction_due(m: ClipboardMonitor, t: DestructionTicket) -> bool {
    payload_like(m.spec_payload(), t.spec_payload())
}

/// The stale-task guard: a destruction ticket acts only on the payload it
/// was issued against. On a monitor holding anything else — a newer copy's
/// payload, or none — the ticket is not due, and firing it changes nothing.
pub proof fn lemma_stale_ticket(m: ClipboardMonitor, t: DestructionTicket)
    requires
        !payload_like(m.spec_payload(), t.spec_payload()),
    ensures
        !spec_destruction_due(m, t),
{
}

/// A newer sealed payload with a different ciphertext supersedes an older
/// ticket outright: the old ticket is not due on the monitor holding the
/// new payload.
pub proof fn lemma_newer_seal_supersedes(m: ClipboardMonitor, t: DestructionTicket)
    requires
        m.spec_payload() is Some,
        t.spec_payload() is Some,
        m.spec_payload()->0.spec_ciphertext() != t.spec_payload()->0.spec_ciphertext(),
    ensures
        !spec_destruction_due(m, t),
{
}

/// Destruction is terminal: once the payload a ticket names has been
/// destroyed — the monitor holds none — the same ticket is never due again,
/// so each sealed payload is destroyed at most once, whichever of the
/// competing triggers got there first.
pub proof fn lemma_destruction_terminal(m: ClipboardMonitor, t: DestructionTicket)
    requires
        m.spec_payload() is None,
        t.spec_payload() is Some,
    ensures
        !spec_destruction_due(m, t),
{
}

/// The clipboard monitor: the encryption engine, the payload now held, the
/// surrogate that stands for it on the system clipboard, the hash of the
/// last content seen, the rolling history, and the configuration.
pub struct ClipboardMonitor {
    crypto_engine: CryptoEngine,
    encrypted_content: Option<EncryptedData>,
    surrogate: Option<String>,
    should_stop: bool,
    last_content_hash: u64,
    state: ClipboardState,
    history: Vec<ClipboardHistoryItem>,
    config: Config,
}

impl ClipboardMonitor {
    /// The engine's current key bytes.
    pub closed spec fn spec_key(&self) -> Seq<u8> {
        self.crypto_engine.key()
    }

    /// The payload now held, if any.
    pub closed spec fn spec_payload(&self) -> Option<EncryptedData> {
        self.encrypted_content
    }

    /// The surrogate standing for the payload, if one is held.
    pub closed spec fn spec_surrogate(&self) -> Option<Seq<char>> {
        match self.surrogate {
            Option::Some(s) => Some(s@),
            Option::None => None,
        }
    }

    /// Whether the poll loop has been asked to stop.
    pub closed spec fn spec_should_stop(&self) -> bool {
        self.should_stop
    }

    /// The hash of the last content seen.
    pub closed spec fn spec_last_hash(&self) -> u64 {
        self.last_content_hash
    }

    /// The readable state.
    pub closed spec fn spec_state(&self) -> ClipboardState {
        self.state
    }

    /// The rolling history.
    pub closed spec fn spec_history(&self) -> Seq<ClipboardHistoryItem> {
        self.history@
    }

    /// The configuration.
    pub closed spec fn spec_config(&self) -> Config {
        self.config
    }

    /// The monitor's invariant: the engine holds a full key; a surrogate is
    /// held exactly while a payload is, encodes that payload, and the
    /// recorded length is the payload's; the history never exceeds its cap.
    pub open spec fn wf(&self) -> bool {
        &&& self.spec_key().len() == crate::KEY_LENGTH
        &&& (self.spec_payload() is Some <==> self.spec_surrogate() is Some)
        &&& (self.spec_payload() matches Some(p) ==> p.wf() && p.combined().len() <= usize::MAX
            && self.spec_surrogate() == Some(crate::base64::b64_encode(p.combined()))
            && self.spec_state().encrypted_content_length == p.combined().len())
        &&& (self.spec_payload() is None ==> self.spec_state().encrypted_content_length == 0)
        &&& self.spec_history().len() <= 100
    }

    /// Create a monitor with a fresh engine and no content, recording the
    /// given moment as its start.
    pub fn new(config: Config, now_ms: u64) -> (r: Result<ClipboardMonitor, ClipboardError>)
        ensures
            r matches Ok(m) ==> m.wf() && m.spec_payload() is None && !m.spec_should_stop()
                && m.spec_history().len() == 0 && m.spec_state() == (ClipboardState {
                is_running: false,
                last_change_ms: None,
                encrypted_content_length: 0,
                start_time_ms: now_ms,
                total_events: 0,
            }) && m.spec_config() == config && m.spec_last_hash() == 0,
            r is Err ==> r->Err_0 is CryptoError,
    {
        let crypto_engine = match CryptoEngine::new() {
            Ok(engine) => engine,
            Err(e) => {
                return Err(ClipboardError::CryptoError(e));
            },
        };
        Ok(
            ClipboardMonitor {
                crypto_engine,
                encrypted_content: None,
                surrogate: None,
                should_stop: false,
                last_content_hash: 0,
                state: ClipboardState {
                    is_running: false,
                    last_change_ms: None,
                    encrypted_content_length: 0,
                    start_time_ms: now_ms,
                    total_events: 0,
                },
                history: Vec::new(),
                config,
            },
        )
    }

    /// Hash content for change detection.
    pub fn calculate_content_hash(&self, content: &str) -> (r: u64)
        ensures
            r == spec_content_hash(content@),
    {
        content_hash(content)
    }

    /// Classify content against the configured pattern.
    pub fn is_sensitive_content(&self, content: &str) -> (r: bool)
        ensures
            r == spec_sensitive(self.spec_config().sensitive_pattern@, content@),
    {
        if content.is_empty() {
            return false;
        }
        if self.config.sensitive_pattern.as_str().is_empty() {
            return false;
        }
        match regex_match_with(self.config.sensitive_pattern.as_str(), content) {
            Some(matched) => matched,
            None => str_contains(content, self.config.sensitive_pattern.as_str()),
        }
    }

    /// Whether this content is the monitor's own surrogate reflecting back.
    pub fn is_our_encrypted_content(&self, content: &str) -> (r: bool)
        ensures
            r == (self.spec_surrogate() matches Some(s) && s == content@),
    {
        match &self.surrogate {
            Option::Some(s) => str_eq(content, s.as_str()),
            Option::None => false,
        }
    }

    /// Begin monitoring: clear the stop flag, mark the monitor running, and
    /// take the hash of whatever is on the clipboard now, so existing
    /// content does not count as a change. The caller runs the poll loop,
    /// handing each read to `check_clipboard_change`.
    pub fn start_monitoring(&mut self, initial_content: Option<&str>)
        ensures
            !final(self).spec_should_stop(),
            final(self).spec_state().is_running,
            initial_content matches Some(c) ==> final(self).spec_last_hash() == spec_content_hash(
                c@,
            ),
            initial_content is None ==> final(self).spec_last_hash() == old(self).spec_last_hash(),
            final(self).wf() == old(self).wf(),
            final(self).spec_payload() == old(self).spec_payload(),
            final(self).spec_surrogate() == old(self).spec_surrogate(),
            final(self).spec_history() == old(self).spec_history(),
            final(self).spec_config() == old(self).spec_config(),
            final(self).spec_state().encrypted_content_length == old(self).spec_state().encrypted_content_length,
    {
        self.should_stop = false;
        self.state.is_running = true;
        match initial_content {
            Some(content) => {
                self.last_content_hash = content_hash(content);
            },
            None => {},
        }
    }

    /// Examine one clipboard read. Empty or unchanged content is no change.
    /// New content first updates the hash; the monitor's own surrogate
    /// reflecting back is left alone, non-sensitive content passes through,
    /// and sensitive content is sealed under the current key with a fresh
    /// nonce, ready for the caller to write its surrogate and commit.
    pub fn check_clipboard_change(&mut self, current_content: Option<String>, now_ms: u64) -> (r:
        Result<CheckOutcome, ClipboardError>)
        requires
            old(self).wf(),
        ensures
            final(self).wf(),
            final(self).spec_payload() == old(self).spec_payload(),
            final(self).spec_surrogate() == old(self).spec_surrogate(),
            final(self).spec_key() == old(self).spec_key(),
            final(self).spec_history() == old(self).spec_history(),
            final(self).spec_state() == old(self).spec_state(),
            final(self).spec_config() == old(self).spec_config(),
            final(self).spec_should_stop() == old(self).spec_should_stop(),
            (current_content is None || (current_content is Some && spec_content_hash(
                current_content->0@,
            ) == old(self).spec_last_hash())) ==> (r matches Ok(o) && o is NoChange
                && final(self).spec_last_hash() == old(self).spec_last_hash()),
            (current_content is Some && spec_content_hash(current_content->0@)
                != old(self).spec_last_hash()) ==> ({
                let c = current_content->0@;
                &&& final(self).spec_last_hash() == spec_content_hash(c)
                &&& (surrogate_reflected(*old(self), c) ==> (r matches Ok(o)
                    && o is OurSurrogate))
                &&& (!surrogate_reflected(*old(self), c) && !spec_sensitive(
                    old(self).spec_config().sensitive_pattern@,
                    c,
                ) ==> (r matches Ok(o) && o is NotSensitive))
                &&& (!surrogate_reflected(*old(self), c) && spec_sensitive(
                    old(self).spec_config().sensitive_pattern@,
                    c,
                ) ==> (sealed_outcome(old(self).spec_key(), c, r) || (r matches Err(e)
                    && e matches ClipboardError::CryptoError(ce) && (ce
                    == CryptoError::KeyGenerationFailed || ce == CryptoError::EncryptionFailed))))
            }),
    {
        let content = match current_content {
            Some(c) => c,
            None => {
                return Ok(CheckOutcome::NoChange);
            },
        };
        let h = content_hash(content.as_str());
        if h == self.last_content_hash {
            return Ok(CheckOutcome::NoChange);
        }
        self.last_content_hash = h;
        if self.is_our_encrypted_content(content.as_str()) {
            return Ok(CheckOutcome::OurSurrogate);
        }
        if !self.is_sensitive_content(content.as_str()) {
            return Ok(CheckOutcome::NotSensitive);
        }
        let payload = match self.crypto_engine.encrypt(content.as_str().as_bytes()) {
            Ok(p) => p,
            Err(e) => {
                return Err(ClipboardError::CryptoError(e));
            },
        };
        let surrogate = payload.to_base64();
        Ok(CheckOutcome::Seal(PendingSeal { payload, surrogate, content }))
    }

    /// Append a history entry, evicting the oldest past the cap of one
    /// hundred.
    fn add_history(&mut self, item: ClipboardHistoryItem)
        requires
            old(self).spec_history().len() <= 100,
        ensures
            final(self).spec_history().len() == if old(self).spec_history().len() < 100 {
                old(self).spec_history().len() + 1
            } else {
                100nat
            },
            final(self).spec_history().last() == item,
            old(self).spec_history().len() < 100 ==> final(self).spec_history().drop_last() == old(self).spec_history(),
            old(self).spec_history().len() == 100 ==> final(self).spec_history().drop_last()
                == old(self).spec_history().skip(1),
            final(self).spec_payload() == old(self).spec_payload(),
            final(self).spec_surrogate() == old(self).spec_surrogate(),
            final(self).spec_key() == old(self).spec_key(),
            final(self).spec_state() == old(self).spec_state(),
            final(self).spec_config() == old(self).spec_config(),
            final(self).spec_last_hash() == old(self).spec_last_hash(),
            final(self).spec_should_stop() == old(self).spec_should_stop(),
    {
        self.history.push(item);
        if self.history.len() > 100 {
            self.history.remove(0);
            proof {
                assert(self.history@.drop_last() =~= old(self).spec_history().skip(1));
                assert(self.history@.last() == item);
            }
        } else {
            proof {
                assert(self.history@.drop_last() =~= old(self).spec_history());
            }
        }
    }

    /// Record a prepared sealing, after its surrogate reached the system
    /// clipboard: hold the payload and surrogate, take the surrogate's hash
    /// as the last content seen, update the readable state, append a
    /// history entry, and issue the copied event and the destruction ticket
    /// bound to exactly this payload.
    pub fn commit_seal(&mut self, pending: PendingSeal, now_ms: u64) -> (r: (
        ClipboardEvent,
        DestructionTicket,
    ))
        requires
            old(self).wf(),
            pending.wf(),
            old(self).spec_state().total_events < u64::MAX,
        ensures
            final(self).wf(),
            payload_like(final(self).spec_payload(), Some(pending.spec_payload())),
            final(self).spec_surrogate() == Some(pending.spec_surrogate()),
            final(self).spec_last_hash() == spec_content_hash(pending.spec_surrogate()),
            final(self).spec_key() == old(self).spec_key(),
            final(self).spec_config() == old(self).spec_config(),
            final(self).spec_should_stop() == old(self).spec_should_stop(),
            final(self).spec_state().encrypted_content_length == pending.spec_payload().combined(

            ).len(),
            final(self).spec_state().total_events == old(self).spec_state().total_events + 1,
            final(self).spec_state().last_change_ms == Some(now_ms),
            final(self).spec_state().is_running == old(self).spec_state().is_running,
            final(self).spec_state().start_time_ms == old(self).spec_state().start_time_ms,
            final(self).spec_history().len() > 0,
            final(self).spec_history().last().timestamp_ms == now_ms,
            final(self).spec_history().last().operation is Copy,
            final(self).spec_history().last().content matches Some(s) && s@
                == pending.spec_content(),
            old(self).spec_history().len() < 100 ==> final(self).spec_history().drop_last() == old(self).spec_history(),
            old(self).spec_history().len() == 100 ==> final(self).spec_history().drop_last()
                == old(self).spec_history().skip(1),
            r.0 matches ClipboardEvent::ContentCopied { length, content_type, timestamp_ms }
                && length == vstd::utf8::encode_utf8(pending.spec_content()).len() as usize
                && content_type is Text && timestamp_ms == now_ms,
            payload_like(r.1.spec_payload(), Some(pending.spec_payload())),
            r.1.spec_content() == pending.spec_content(),
    {
        let PendingSeal { payload, surrogate, content } = pending;
        let ticket_payload = payload.duplicate();
        let surrogate_hash = content_hash(surrogate.as_str());
        let length_bytes = content.as_str().len();
        let total_len = payload.total_length();
        self.encrypted_content = Some(payload);
        self.surrogate = Some(surrogate);
        self.last_content_hash = surrogate_hash;
        self.state.last_change_ms = Some(now_ms);
        self.state.encrypted_content_length = total_len;
        self.state.total_events = self.state.total_events + 1;
        self.add_history(
            ClipboardHistoryItem {
                timestamp_ms: now_ms,
                length: length_bytes,
                content_type: ContentType::Text,
                operation: ClipboardOperation::Copy,
                content: Some(content.clone()),
            },
        );
        let event = ClipboardEvent::ContentCopied {
            length: length_bytes,
            content_type: ContentType::Text,
            timestamp_ms: now_ms,
        };
        (event, DestructionTicket { payload: Some(ticket_payload), content })
    }

    /// Whether a destruction ticket is still due: exactly when the payload
    /// now held is the one the ticket was issued against.
    pub fn destruction_due(&self, ticket: &DestructionTicket) -> (r: bool)
        ensures
            r == payload_like(self.spec_payload(), ticket.spec_payload()),
    {
        eq_payload(&self.encrypted_content, &ticket.payload)
    }

    /// Record a pasted-content notice: take the pasted text's hash as the
    /// last content seen and issue the paste event and a destruction ticket
    /// against the payload now held.
    pub fn handle_paste(&mut self, content: &str, now_ms: u64) -> (r: (
        ClipboardEvent,
        DestructionTicket,
    ))
        requires
            old(self).wf(),
        ensures
            final(self).wf(),
            final(self).spec_last_hash() == spec_content_hash(content@),
            final(self).spec_payload() == old(self).spec_payload(),
            final(self).spec_surrogate() == old(self).spec_surrogate(),
            final(self).spec_key() == old(self).spec_key(),
            final(self).spec_history() == old(self).spec_history(),
            final(self).spec_state() == old(self).spec_state(),
            final(self).spec_config() == old(self).spec_config(),
            final(self).spec_should_stop() == old(self).spec_should_stop(),
            r.0 == (ClipboardEvent::ContentPasted { timestamp_ms: now_ms }),
            payload_like(r.1.spec_payload(), old(self).spec_payload()),
            r.1.spec_content() == content@,
    {
        self.last_content_hash = content_hash(content);
        let ticket_payload = match &self.encrypted_content {
            Option::Some(d) => Some(d.duplicate()),
            Option::None => None,
        };
        (
            ClipboardEvent::ContentPasted { timestamp_ms: now_ms },
            DestructionTicket { payload: ticket_payload, content: content.to_owned() },
        )
    }

    /// Drop the held payload and surrogate, reset the last-seen hash to the
    /// empty content's, and zero the recorded length; scrub scratch memory.
    /// The caller has already cleared the system clipboard. Idempotent: the
    /// result does not depend on what was held before.
    pub fn clear_clipboard(&mut self, reason: ClearReason, now_ms: u64) -> (r: ClipboardEvent)
        requires
            old(self).wf(),
        ensures
            final(self).wf(),
            final(self).spec_payload() is None,
            final(self).spec_surrogate() is None,
            final(self).spec_state().encrypted_content_length == 0,
            final(self).spec_last_hash() == spec_content_hash(Seq::empty()),
            final(self).spec_key() == old(self).spec_key(),
            final(self).spec_history() == old(self).spec_history(),
            final(self).spec_config() == old(self).spec_config(),
            final(self).spec_should_stop() == old(self).spec_should_stop(),
            final(self).spec_state().is_running == old(self).spec_state().is_running,
            final(self).spec_state().last_change_ms == old(self).spec_state().last_change_ms,
            final(self).spec_state().start_time_ms == old(self).spec_state().start_time_ms,
            final(self).spec_state().total_events == old(self).spec_state().total_events,
            r == (ClipboardEvent::ContentCleared { reason, timestamp_ms: now_ms }),
    {
        self.encrypted_content = None;
        self.surrogate = None;
        self.last_content_hash = content_hash("");
        proof {
            reveal_strlit("");
            assert(""@ =~= Seq::<char>::empty());
        }
        self.state.encrypted_content_length = 0;
        SecureMemory::secure_zero_memory();
        ClipboardEvent::ContentCleared { reason, timestamp_ms: now_ms }
    }

    /// Fire a scheduled destruction. A ticket whose payload is no longer
    /// the one held is stale and changes nothing — a newer copy superseded
    /// it. A due ticket purges its content's history entries; if the caller
    /// cleared the system clipboard, the payload, surrogate, hash and
    /// length are destroyed too and the cleared event is emitted, while a
    /// failed clear leaves them for the next attempt. Scratch memory is
    /// scrubbed either way.
    pub fn finish_destruction(
        &mut self,
        ticket: &DestructionTicket,
        clear_succeeded: bool,
        now_ms: u64,
    ) -> (r: Option<ClipboardEvent>)
        requires
            old(self).wf(),
        ensures
            final(self).wf(),
            final(self).spec_key() == old(self).spec_key(),
            final(self).spec_config() == old(self).spec_config(),
            final(self).spec_should_stop() == old(self).spec_should_stop(),
            !payload_like(old(self).spec_payload(), ticket.spec_payload()) ==> *final(self)
                == *old(self) && r is None,
            payload_like(old(self).spec_payload(), ticket.spec_payload()) ==> {
                &&& final(self).spec_history() == purge_content(
                    old(self).spec_history(),
                    ticket.spec_content(),
                )
                &&& (clear_succeeded ==> final(self).spec_payload() is None
                    && final(self).spec_surrogate() is None
                    && final(self).spec_state().encrypted_content_length == 0
                    && final(self).spec_last_hash() == spec_content_hash(Seq::empty()) && r == Some(
                    ClipboardEvent::ContentCleared {
                        reason: ClearReason::TimerExpired,
                        timestamp_ms: now_ms,
                    },
                ))
                &&& (!clear_succeeded ==> final(self).spec_payload() == old(self).spec_payload()
                    && final(self).spec_surrogate() == old(self).spec_surrogate()
                    && final(self).spec_last_hash() == old(self).spec_last_hash()
                    && final(self).spec_state() == old(self).spec_state() && r is None)
            },
    {
        if !self.destruction_due(ticket) {
            return None;
        }
        self.purge_history_content(ticket.content.as_str());
        if !clear_succeeded {
            SecureMemory::secure_zero_memory();
            return None;
        }
        self.encrypted_content = None;
        self.surrogate = None;
        self.last_content_hash = content_hash("");
        proof {
            reveal_strlit("");
            assert(""@ =~= Seq::<char>::empty());
        }
        self.state.encrypted_content_length = 0;
        SecureMemory::secure_zero_memory();
        Some(
            ClipboardEvent::ContentCleared {
                reason: ClearReason::TimerExpired,
                timestamp_ms: now_ms,
            },
        )
    }

    /// Remove every history entry holding exactly this content.
    fn purge_history_content(&mut self, content: &str)
        ensures
            final(self).spec_history() == purge_content(old(self).spec_history(), content@),
            final(self).spec_history().len() <= old(self).spec_history().len(),
            final(self).spec_payload() == old(self).spec_payload(),
            final(self).spec_surrogate() == old(self).spec_surrogate(),
            final(self).spec_key() == old(self).spec_key(),
            final(self).spec_state() == old(self).spec_state(),
            final(self).spec_config() == old(self).spec_config(),
            final(self).spec_last_hash() == old(self).spec_last_hash(),
            final(self).spec_should_stop() == old(self).spec_should_stop(),
    {
        let ghost orig = self.history@;
        let ghost entry = *self;
        let mut kept: Vec<ClipboardHistoryItem> = Vec::new();
        proof {
            reveal(Seq::filter);
            assert(orig.take(0) =~= Seq::<ClipboardHistoryItem>::empty());
            assert(purge_content(orig.take(0), content@) =~= Seq::<
                ClipboardHistoryItem,
            >::empty());
        }
        let ghost processed: int = 0;
        while self.history.len() > 0
            invariant
                0 <= processed <= orig.len(),
                self.history@ =~= orig.skip(processed),
                kept@ == purge_content(orig.take(processed), content@),
                kept@.len() <= processed,
                self.encrypted_content == entry.encrypted_content,
                self.surrogate == entry.surrogate,
                self.crypto_engine == entry.crypto_engine,
                self.state == entry.state,
                self.config == entry.config,
                self.last_content_hash == entry.last_content_hash,
                self.should_stop == entry.should_stop,
            decreases self.history@.len(),
        {
            let item = self.history.remove(0);
            proof {
                reveal(Seq::filter);
                assert(orig.skip(processed)[0] == orig[processed]);
                assert(self.history@ =~= orig.skip(processed + 1));
                assert(orig.take(processed + 1).drop_last() =~= orig.take(processed));
                assert(orig.take(processed + 1).last() == orig[processed]);
            }
            let keep = match &item.content {
                Option::Some(s) => !str_eq(s.as_str(), content),
                Option::None => true,
            };
            if keep {
                kept.push(item);
            }
            proof {
                processed = processed + 1;
            }
        }
        proof {
            assert(orig.take(orig.len() as int) =~= orig);
        }
        self.history = kept;
    }

    /// Destroy everything at once: drop the payload and surrogate, wipe the
    /// whole history, regenerate the key — permanently orphaning every
    /// payload sealed so far — and scrub scratch memory three times. The
    /// caller has already cleared the system clipboard.
    pub fn emergency_nuke(&mut self, now_ms: u64) -> (r: Result<ClipboardEvent, ClipboardError>)
        requires
            old(self).wf(),
        ensures
            final(self).wf(),
            final(self).spec_payload() is None,
            final(self).spec_surrogate() is None,
            final(self).spec_state().encrypted_content_length == 0,
            final(self).spec_history().len() == 0,
            final(self).spec_last_hash() == spec_content_hash(Seq::empty()),
            r matches Ok(e) ==> e == (ClipboardEvent::ContentCleared {
                reason: ClearReason::EmergencyNuke,
                timestamp_ms: now_ms,
            }),
            r is Err ==> (r->Err_0 matches ClipboardError::CryptoError(ce) && ce
                == CryptoError::KeyGenerationFailed && final(self).spec_key() == old(
                self,
            ).spec_key()),
    {
        let event = self.clear_clipboard(ClearReason::EmergencyNuke, now_ms);
        self.clear_all_history();
        match self.crypto_engine.regenerate_key() {
            Ok(()) => {},
            Err(e) => {
                return Err(ClipboardError::CryptoError(e));
            },
        }
        SecureMemory::secure_zero_memory();
        SecureMemory::secure_zero_memory();
        SecureMemory::secure_zero_memory();
        Ok(event)
    }

    /// Wipe the whole history.
    pub fn clear_all_history(&mut self)
        ensures
            final(self).spec_history().len() == 0,
            final(self).spec_payload() == old(self).spec_payload(),
            final(self).spec_surrogate() == old(self).spec_surrogate(),
            final(self).spec_key() == old(self).spec_key(),
            final(self).spec_state() == old(self).spec_state(),
            final(self).spec_config() == old(self).spec_config(),
            final(self).spec_last_hash() == old(self).spec_last_hash(),
            final(self).spec_should_stop() == old(self).spec_should_stop(),
    {
        self.history = Vec::new();
    }

    /// Drop every history entry older than the thirty-second retention
    /// window, returning how many went.
    pub fn clear_expired_history(&mut self, now_ms: u64) -> (r: usize)
        requires
            old(self).wf(),
        ensures
            final(self).wf(),
            final(self).spec_history() == recent_history(old(self).spec_history(), now_ms),
            r == old(self).spec_history().len() - final(self).spec_history().len(),
            final(self).spec_payload() == old(self).spec_payload(),
            final(self).spec_surrogate() == old(self).spec_surrogate(),
            final(self).spec_key() == old(self).spec_key(),
            final(self).spec_state() == old(self).spec_state(),
            final(self).spec_config() == old(self).spec_config(),
            final(self).spec_last_hash() == old(self).spec_last_hash(),
            final(self).spec_should_stop() == old(self).spec_should_stop(),
    {
        let ghost orig = self.history@;
        let ghost entry = *self;
        let original_len = self.history.len();
        let mut kept: Vec<ClipboardHistoryItem> = Vec::new();
        proof {
            reveal(Seq::filter);
            assert(orig.take(0) =~= Seq::<ClipboardHistoryItem>::empty());
            assert(recent_history(orig.take(0), now_ms) =~= Seq::<ClipboardHistoryItem>::empty());
        }
        let ghost processed: int = 0;
        while self.history.len() > 0
            invariant
                0 <= processed <= orig.len(),
                orig.len() == original_len,
                self.history@ =~= orig.skip(processed),
                kept@ == recent_history(orig.take(processed), now_ms),
                kept@.len() <= processed,
                self.encrypted_content == entry.encrypted_content,
                self.surrogate == entry.surrogate,
                self.crypto_engine == entry.crypto_engine,
                self.state == entry.state,
                self.config == entry.config,
                self.last_content_hash == entry.last_content_hash,
                self.should_stop == entry.should_stop,
            decreases self.history@.len(),
        {
            let item = self.history.remove(0);
            proof {
                reveal(Seq::filter);
                assert(orig.skip(processed)[0] == orig[processed]);
                assert(self.history@ =~= orig.skip(processed + 1));
                assert(orig.take(processed + 1).drop_last() =~= orig.take(processed));
                assert(orig.take(processed + 1).last() == orig[processed]);
            }
            let keep = now_ms < item.timestamp_ms || now_ms - item.timestamp_ms < 30000;
            if keep {
                kept.push(item);
            }
            proof {
                processed = processed + 1;
            }
        }
        proof {
            assert(orig.take(orig.len() as int) =~= orig);
        }
        let removed = original_len - kept.len();
        self.history = kept;
        removed
    }

    /// Drop every history entry whose operation is of the given kind,
    /// returning how many went.
    pub fn clear_history_by_operation(&mut self, operation: ClipboardOperation) -> (r: usize)
        requires
            old(self).wf(),
        ensures
            final(self).wf(),
            final(self).spec_history() == history_without_kind(old(self).spec_history(), operation),
            r == old(self).spec_history().len() - final(self).spec_history().len(),
            final(self).spec_payload() == old(self).spec_payload(),
            final(self).spec_surrogate() == old(self).spec_surrogate(),
            final(self).spec_key() == old(self).spec_key(),
            final(self).spec_state() == old(self).spec_state(),
            final(self).spec_config() == old(self).spec_config(),
            final(self).spec_last_hash() == old(self).spec_last_hash(),
            final(self).spec_should_stop() == old(self).spec_should_stop(),
    {
        let ghost orig = self.history@;
        let ghost entry = *self;
        let original_len = self.history.len();
        let mut kept: Vec<ClipboardHistoryItem> = Vec::new();
        proof {
            reveal(Seq::filter);
            assert(orig.take(0) =~= Seq::<ClipboardHistoryItem>::empty());
            assert(history_without_kind(orig.take(0), operation) =~= Seq::<
                ClipboardHistoryItem,
            >::empty());
        }
        let ghost processed: int = 0;
        while self.history.len() > 0
            invariant
                0 <= processed <= orig.len(),
                orig.len() == original_len,
                self.history@ =~= orig.skip(processed),
                kept@ == history_without_kind(orig.take(processed), operation),
                kept@.len() <= processed,
                self.encrypted_content == entry.encrypted_content,
                self.surrogate == entry.surrogate,
                self.crypto_engine == entry.crypto_engine,
                self.state == entry.state,
                self.config == entry.config,
                self.last_content_hash == entry.last_content_hash,
                self.should_stop == entry.should_stop,
            decreases self.history@.len(),
        {
            let item = self.history.remove(0);
            proof {
                reveal(Seq::filter);
                assert(orig.skip(processed)[0] == orig[processed]);
                assert(self.history@ =~= orig.skip(processed + 1));
                assert(orig.take(processed + 1).drop_last() =~= orig.take(processed));
                assert(orig.take(processed + 1).last() == orig[processed]);
            }
            let keep = match (&item.operation, &operation) {
                (ClipboardOperation::Copy, ClipboardOperation::Copy) => false,
                (ClipboardOperation::Paste, ClipboardOperation::Paste) => false,
                (ClipboardOperation::Clear(_), ClipboardOperation::Clear(_)) => false,
                _ => true,
            };
            if keep {
                kept.push(item);
            }
            proof {
                processed = processed + 1;
            }
        }
        proof {
            assert(orig.take(orig.len() as int) =~= orig);
        }
        let removed = original_len - kept.len();
        self.history = kept;
        removed
    }

    /// Remove the first history entry holding exactly this content, if any.
    pub fn remove_history_item(&mut self, content: &str)
        requires
            old(self).wf(),
        ensures
            final(self).wf(),
            (forall|i: int|
                0 <= i < old(self).spec_history().len() ==> keeps_content(
                    #[trigger] old(self).spec_history()[i],
                    content@,
                )) ==> final(self).spec_history() == old(self).spec_history(),
            (exists|i: int|
                0 <= i < old(self).spec_history().len() && !keeps_content(
                    #[trigger] old(self).spec_history()[i],
                    content@,
                )) ==> (exists|i: int|
                0 <= i < old(self).spec_history().len() && !keeps_content(
                    #[trigger] old(self).spec_history()[i],
                    content@,
                ) && (forall|j: int|
                    0 <= j < i ==> keeps_content(old(self).spec_history()[j], content@)) && final(self).spec_history() == old(self).spec_history().remove(i)),
            final(self).spec_payload() == old(self).spec_payload(),
            final(self).spec_surrogate() == old(self).spec_surrogate(),
            final(self).spec_key() == old(self).spec_key(),
            final(self).spec_state() == old(self).spec_state(),
            final(self).spec_config() == old(self).spec_config(),
            final(self).spec_last_hash() == old(self).spec_last_hash(),
            final(self).spec_should_stop() == old(self).spec_should_stop(),
    {
        let mut i: usize = 0;
        let n = self.history.len();
        while i < n
            invariant
                i <= n,
                old(self).wf(),
                *self == *old(self),
                n == self.history@.len(),
                forall|j: int|
                    0 <= j < i ==> keeps_content(#[trigger] self.history@[j], content@),
            decreases n - i,
        {
            let matches_here = match &self.history[i].content {
                Option::Some(s) => str_eq(s.as_str(), content),
                Option::None => false,
            };
            if matches_here {
                self.history.remove(i);
                return;
            }
            i = i + 1;
        }
    }

    /// A copy of the history, oldest first.
    pub fn get_history(&self) -> (r: Vec<ClipboardHistoryItem>)
        ensures
            r@ == self.spec_history(),
    {
        let mut r: Vec<ClipboardHistoryItem> = Vec::new();
        let mut i: usize = 0;
        let n = self.history.len();
        while i < n
            invariant
                i <= n,
                n == self.history@.len(),
                r@ =~= self.history@.take(i as int),
            decreases n - i,
        {
            let it = &self.history[i];
            let content = match &it.content {
                Option::Some(s) => Some(s.clone()),
                Option::None => None,
            };
            r.push(
                ClipboardHistoryItem {
                    timestamp_ms: it.timestamp_ms,
                    length: it.length,
                    content_type: it.content_type,
                    operation: it.operation,
                    content,
                },
            );
            proof {
                assert(r@.last() == self.history@[i as int]);
                assert(r@ =~= self.history@.take(i + 1));
            }
            i = i + 1;
        }
        proof {
            assert(self.history@.take(n as int) =~= self.history@);
        }
        r
    }

    /// A copy of the readable state.
    pub fn get_state(&self) -> (r: ClipboardState)
        ensures
            r == self.spec_state(),
    {
        self.state
    }

    /// The configuration the monitor runs under.
    pub fn config(&self) -> (r: &Config)
        ensures
            *r == self.spec_config(),
    {
        &self.config
    }

    /// Record content the caller wrote to the system clipboard, so the next
    /// poll does not see it as a change.
    pub fn set_clipboard_content(&mut self, content: &str)
        ensures
            final(self).spec_last_hash() == spec_content_hash(content@),
            final(self).wf() == old(self).wf(),
            final(self).spec_payload() == old(self).spec_payload(),
            final(self).spec_surrogate() == old(self).spec_surrogate(),
            final(self).spec_key() == old(self).spec_key(),
            final(self).spec_history() == old(self).spec_history(),
            final(self).spec_state() == old(self).spec_state(),
            final(self).spec_config() == old(self).spec_config(),
            final(self).spec_should_stop() == old(self).spec_should_stop(),
    {
        self.last_content_hash = content_hash(content);
    }

    /// Decrypt the held payload for display, without touching the key.
    /// Succeeds exactly when a payload is held, opens under the current key
    /// and decodes as text.
    pub fn get_decrypted_content(&self) -> (r: Result<Option<String>, ClipboardError>)
        requires
            self.wf(),
        ensures
            self.spec_payload() is None ==> (r matches Ok(o) && o is None),
            self.spec_payload() matches Some(p) ==> ({
                let opened = open_of(self.spec_key(), p.spec_nonce(), p.spec_ciphertext());
                &&& (opened is None ==> (r matches Err(e) && e matches ClipboardError::CryptoError(
                    ce,
                ) && ce == CryptoError::DecryptionFailed))
                &&& (opened matches Some(bytes) ==> (if vstd::utf8::valid_utf8(bytes) {
                    r matches Ok(o) && o matches Some(s) && s@ == vstd::utf8::decode_utf8(bytes)
                } else {
                    r matches Err(e) && e is ReadFailed
                }))
            }),
    {
        let data = match &self.encrypted_content {
            Option::Some(d) => d,
            Option::None => {
                return Ok(None);
            },
        };
        let bytes = match self.crypto_engine.decrypt(data) {
            Ok(b) => b,
            Err(e) => {
                return Err(ClipboardError::CryptoError(e));
            },
        };
        match string_from_utf8(bytes) {
            Some(s) => Ok(Some(s)),
            None => Err(ClipboardError::ReadFailed("the plaintext is not text".to_owned())),
        }
    }

    /// Decrypt the held payload for a user paste and rotate the key as one
    /// logical unit, so no second decryption of the payload is possible.
    /// On a decryption failure the key is kept.
    pub fn get_decrypted_content_for_paste(&mut self) -> (r: Result<
        Option<String>,
        ClipboardError,
    >)
        requires
            old(self).wf(),
        ensures
            final(self).wf(),
            final(self).spec_payload() == old(self).spec_payload(),
            final(self).spec_surrogate() == old(self).spec_surrogate(),
            final(self).spec_history() == old(self).spec_history(),
            final(self).spec_state() == old(self).spec_state(),
            final(self).spec_config() == old(self).spec_config(),
            final(self).spec_last_hash() == old(self).spec_last_hash(),
            final(self).spec_should_stop() == old(self).spec_should_stop(),
            old(self).spec_payload() is None ==> (r matches Ok(o) && o is None && final(self).spec_key() == old(self).spec_key()),
            old(self).spec_payload() matches Some(p) ==> ({
                let opened = open_of(old(self).spec_key(), p.spec_nonce(), p.spec_ciphertext());
                &&& (opened is None ==> (r matches Err(e) && e matches ClipboardError::CryptoError(
                    ce,
                ) && ce == CryptoError::DecryptionFailed) && final(self).spec_key() == old(self).spec_key())
                &&& ((opened matches Some(bytes) && vstd::utf8::valid_utf8(bytes)) ==> ((
                r matches Ok(o) && o matches Some(s) && s@ == vstd::utf8::decode_utf8(
                    opened.unwrap(),
                )) || (r matches Err(e) && e matches ClipboardError::CryptoError(ce) && ce
                    == CryptoError::KeyGenerationFailed)))
                &&& ((opened matches Some(bytes) && !vstd::utf8::valid_utf8(bytes)) ==> ((
                r matches Err(e) && e is ReadFailed) || (r matches Err(e)
                    && e matches ClipboardError::CryptoError(ce) && ce
                    == CryptoError::KeyGenerationFailed)))
            }),
    {
        let data = match &self.encrypted_content {
            Option::Some(d) => d.duplicate(),
            Option::None => {
                return Ok(None);
            },
        };
        proof {
            assert(data.wf());
        }
        let bytes = match self.crypto_engine.decrypt_and_reset_key(&data) {
            Ok(b) => b,
            Err(e) => {
                return Err(ClipboardError::CryptoError(e));
            },
        };
        match string_from_utf8(bytes) {
            Some(s) => Ok(Some(s)),
            None => Err(ClipboardError::ReadFailed("the plaintext is not text".to_owned())),
        }
    }

    /// Ask the poll loop to stop; it observes the flag at its next tick.
    pub fn stop_monitoring(&mut self)
        ensures
            final(self).spec_should_stop(),
            !final(self).spec_state().is_running,
            final(self).wf() == old(self).wf(),
            final(self).spec_payload() == old(self).spec_payload(),
            final(self).spec_surrogate() == old(self).spec_surrogate(),
            final(self).spec_history() == old(self).spec_history(),
            final(self).spec_state().encrypted_content_length == old(
                self,
            ).spec_state().encrypted_content_length,
            final(self).spec_state().last_change_ms == old(self).spec_state().last_change_ms,
            final(self).spec_state().start_time_ms == old(self).spec_state().start_time_ms,
            final(self).spec_state().total_events == old(self).spec_state().total_events,
            final(self).spec_last_hash() == old(self).spec_last_hash(),
            final(self).spec_config() == old(self).spec_config(),
    {
        self.should_stop = true;
        self.state.is_running = false;
    }

    /// Whether the poll loop has been asked to stop.
    pub fn should_stop(&self) -> (r: bool)
        ensures
            r == self.spec_should_stop(),
    {
        self.should_stop
    }
}

} // verus!
