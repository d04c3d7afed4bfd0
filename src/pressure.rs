use vstd::prelude::*;
use vstd::string::StringExecFns;

use crate::reply::{error_body, error_reply, ok_body, ok_reply, Failure, Reply, Service};
use crate::text::{dec, push_decimal};

verus! {

/// Handles left free at startup so that the next accept finds room.
pub const ACCEPT_RESERVE: usize = 1;

/// The most handles one request may hold on top of the startup pressure.
pub const HANDLER_GUARDS: usize = 8;

/// The most filler files opened at startup.
pub const FILL_CAP: usize = 800;

/// A progress line is written each time this many fillers are open.
pub const REPORT_EVERY: usize = 32;

pub open spec fn reserve() -> nat {
    (ACCEPT_RESERVE + HANDLER_GUARDS) as nat
}

/// `fill-<n>.bin`
pub open spec fn fill_name_text(n: nat) -> Seq<char> {
    "fill-"@ + dec(n) + ".bin"@
}

/// `req-<ms>.bin`
pub open spec fn request_file_text(ms: nat) -> Seq<char> {
    "req-"@ + dec(ms) + ".bin"@
}

/// `ok <ms>` and a newline.
pub open spec fn request_line_text(ms: nat) -> Seq<char> {
    "ok "@ + dec(ms) + "\n"@
}

/// The startup protocol: open fillers until an open fails or `FILL_CAP` are
/// open, then give back `ACCEPT_RESERVE + HANDLER_GUARDS` of them.
pub struct Saturation {
    opened: usize,
    stopped: bool,
}

impl Saturation {
    /// Fillers opened so far.
    pub closed spec fn opened(&self) -> nat {
        self.opened as nat
    }

    /// Whether no further filler is to be opened.
    pub closed spec fn stopped(&self) -> bool {
        self.stopped
    }

    pub closed spec fn wf(&self) -> bool {
        &&& self.opened <= FILL_CAP
        &&& self.opened == FILL_CAP ==> self.stopped
    }

    pub fn new() -> (r: Saturation)
        ensures
            r.wf(),
            r.opened() == 0,
            !r.stopped(),
    {
        Saturation { opened: 0, stopped: false }
    }

    pub fn is_done(&self) -> (r: bool)
        ensures
            r == self.stopped(),
    {
        self.stopped
    }

    pub fn opened_count(&self) -> (r: usize)
        ensures
            r as nat == self.opened(),
    {
        self.opened
    }

    /// The name of the next filler to open.
    pub fn next_fill_name(&self) -> (r: String)
        ensures
            r@ == fill_name_text(self.opened()),
    {
        let mut r = String::from_str("fill-");
        push_decimal(&mut r, self.opened as u128);
        r.append(".bin");
        r
    }

    /// Takes the outcome of opening the next filler. Returns whether a
    /// progress line is due.
    pub fn record_open(&mut self, ok: bool) -> (report: bool)
        requires
            old(self).wf(),
            !old(self).stopped(),
        ensures
            final(self).wf(),
            ok ==> final(self).opened() == old(self).opened() + 1,
            ok ==> (final(self).stopped() <==> final(self).opened() == FILL_CAP),
            ok ==> (report <==> final(self).opened() % (REPORT_EVERY as nat) == 0),
            !ok ==> final(self).opened() == old(self).opened() && final(self).stopped() && !report,
    {
        if ok {
            self.opened = self.opened + 1;
            self.stopped = self.opened == FILL_CAP;
            self.opened % REPORT_EVERY == 0
        } else {
            self.stopped = true;
            false
        }
    }

    /// How many of the open fillers to close once opening has stopped: the
    /// reserve, or all of them where fewer are open.
    pub fn release_count(&self) -> (r: usize)
        ensures
            r as nat == released(self.opened()),
    {
        let reserve = ACCEPT_RESERVE + HANDLER_GUARDS;
        if self.opened < reserve {
            self.opened
        } else {
            reserve
        }
    }

    /// How many fillers stay open for the life of the process.
    pub fn retained(&self) -> (r: usize)
        ensures
            r as nat == if self.opened() < reserve() { 0 } else { (self.opened() - reserve()) as nat },
    {
        self.opened - self.release_count()
    }
}

/// The handles one request holds while it works: at most `HANDLER_GUARDS`,
/// and none after the first failed open.
pub struct Guards {
    acquired: usize,
    stopped: bool,
}

impl Guards {
    pub closed spec fn acquired(&self) -> nat {
        self.acquired as nat
    }

    pub closed spec fn stopped(&self) -> bool {
        self.stopped
    }

    pub closed spec fn wf(&self) -> bool {
        self.acquired <= HANDLER_GUARDS
    }

    pub fn new() -> (r: Guards)
        ensures
            r.wf(),
            r.acquired() == 0,
            !r.stopped(),
    {
        Guards { acquired: 0, stopped: false }
    }

    /// Whether another guard is to be opened.
    pub fn wants_more(&self) -> (r: bool)
        ensures
            r == (!self.stopped() && self.acquired() < HANDLER_GUARDS),
    {
        !self.stopped && self.acquired < HANDLER_GUARDS
    }

    /// Takes the outcome of opening one guard.
    pub fn record_open(&mut self, ok: bool)
        requires
            old(self).wf(),
            !old(self).stopped(),
            old(self).acquired() < HANDLER_GUARDS,
        ensures
            final(self).wf(),
            ok ==> final(self).acquired() == old(self).acquired() + 1 && !final(self).stopped(),
            !ok ==> final(self).acquired() == old(self).acquired() && final(self).stopped(),
    {
        if ok {
            self.acquired = self.acquired + 1;
        } else {
            self.stopped = true;
        }
    }

    pub fn count(&self) -> (r: usize)
        requires
            self.wf(),
        ensures
            r as nat == self.acquired(),
            r <= HANDLER_GUARDS,
    {
        self.acquired
    }
}

/// Fillers closed after startup: the reserve, or all where fewer were opened.
pub open spec fn released(opened: nat) -> nat {
    if opened < reserve() { opened } else { reserve() }
}

/// Once startup has given back its reserve, the room left holds the next
/// accept and every guard a request can take, however its opens turn out:
/// the guards never exceed `HANDLER_GUARDS`.
pub proof fn lemma_reserve_covers_request(s: Saturation, g: Guards)
    requires
        s.wf(),
        g.wf(),
        s.opened() >= reserve(),
    ensures
        g.acquired() <= HANDLER_GUARDS,
        ACCEPT_RESERVE + g.acquired() <= released(s.opened()),
        released(s.opened()) + (s.opened() - reserve()) == s.opened(),
{
}

/// The soft limit on open files as read from the system, or 1024 where it
/// could not be read.
pub fn nofile_soft_or_default(read_ok: bool, soft: u64) -> (r: u64)
    ensures
        read_ok ==> r == soft,
        !read_ok ==> r == 1024,
{
    if read_ok {
        soft
    } else {
        1024
    }
}

/// `[endpoint4] pre-opened <n> files...`
pub fn progress_note(n: usize) -> (r: String)
    ensures
        r@ == "[endpoint4] pre-opened "@ + dec(n as nat) + " files..."@,
{
    let mut r = String::from_str("[endpoint4] pre-opened ");
    push_decimal(&mut r, n as u128);
    r.append(" files...");
    r
}

/// The line that closes startup: the soft limit and the fillers kept.
pub fn saturation_note(soft: u64, held: usize) -> (r: String)
    ensures
        r@ == "[endpoint4] RLIMIT_NOFILE soft="@ + dec(soft as nat) + " held_after_reserve="@
            + dec(held as nat) + " (reserve_total=ACCEPT:"@ + dec(ACCEPT_RESERVE as nat)
            + " + GUARDS:"@ + dec(HANDLER_GUARDS as nat) + ")"@,
{
    let mut r = String::from_str("[endpoint4] RLIMIT_NOFILE soft=");
    push_decimal(&mut r, soft as u128);
    r.append(" held_after_reserve=");
    push_decimal(&mut r, held as u128);
    r.append(" (reserve_total=ACCEPT:");
    push_decimal(&mut r, ACCEPT_RESERVE as u128);
    r.append(" + GUARDS:");
    push_decimal(&mut r, HANDLER_GUARDS as u128);
    r.append(")");
    r
}

/// The name of the file a request received at `ms` creates.
pub fn request_file_name(ms: u128) -> (r: String)
    ensures
        r@ == request_file_text(ms as nat),
{
    let mut r = String::from_str("req-");
    push_decimal(&mut r, ms);
    r.append(".bin");
    r
}

/// The line written into a request's file.
pub fn request_line(ms: u128) -> (r: String)
    ensures
        r@ == request_line_text(ms as nat),
{
    let mut r = String::from_str("ok ");
    push_decimal(&mut r, ms);
    r.append("\n");
    r
}

/// The answer to a request off the health route: 200 where its file was
/// created, else 503 `EMFILE_TOO_MANY_OPEN_FILES`.
pub fn create_reply(created: bool) -> (r: Reply)
    ensures
        created ==> r.status == 200 && r.body@ == ok_body(Service::Pressurizer),
        !created ==> r.status == 503 && r.body@ == error_body(
            Service::Pressurizer,
            Failure::TooManyOpenFiles,
        ),
{
    if created {
        ok_reply(Service::Pressurizer)
    } else {
        error_reply(Service::Pressurizer, Failure::TooManyOpenFiles)
    }
}

} // verus!
