//! The greeter: builds the one greeting line and records it in the host's
//! log, always reporting success.

use vstd::prelude::*;

verus! {

/// Byte that terminates every buffer handed to the host's logging function.
pub const NUL: u8 = 0;

/// Line feed: closes the greeting line.
pub const LINE_FEED: u8 = 10;

/// ASCII `%`, the lead byte of a format specifier: a buffer free of it makes
/// a variadic formatter read no arguments at all.
pub const PERCENT: u8 = 37;

/// The severity tag `"KERN_INFO "` that marks a message as informational to
/// the host's logging function.
pub open spec fn severity_prefix() -> Seq<u8> {
    seq![75u8, 69u8, 82u8, 78u8, 95u8, 73u8, 78u8, 70u8, 79u8, 32u8]
}

/// The greeting text itself, `"Hola Mundo desde Rust!"`.
pub open spec fn greeting_text() -> Seq<u8> {
    seq![
        72u8, 111u8, 108u8, 97u8, 32u8, 77u8, 117u8, 110u8, 100u8, 111u8, 32u8, 100u8, 101u8,
        115u8, 100u8, 101u8, 32u8, 82u8, 117u8, 115u8, 116u8, 33u8,
    ]
}

/// The whole buffer the greeter hands to the logging function: severity tag,
/// greeting text, line feed, NUL terminator.
pub open spec fn greeting_bytes() -> Seq<u8> {
    severity_prefix() + greeting_text() + seq![LINE_FEED, NUL]
}

/// The buffer ends with a NUL byte and holds no NUL before it, so a reader
/// that stops at the first NUL consumes exactly this buffer.
pub open spec fn null_terminated(s: Seq<u8>) -> bool {
    &&& s.len() > 0
    &&& s.last() == NUL
    &&& forall|i: int| 0 <= i < s.len() - 1 ==> s[i] != NUL
}

/// No byte of the buffer is `%`, so a variadic formatter finds no specifier
/// and reads no variadic arguments.
pub open spec fn format_specifier_free(s: Seq<u8>) -> bool {
    forall|i: int| 0 <= i < s.len() ==> s[i] != PERCENT
}

/// The message opens with the informational severity tag.
pub open spec fn tagged_informational(s: Seq<u8>) -> bool {
    &&& s.len() >= severity_prefix().len()
    &&& s.subrange(0, severity_prefix().len() as int) == severity_prefix()
}

/// Builds the greeting buffer afresh; every call returns the same bytes.
pub fn greeting_message() -> (r: Vec<u8>)
    ensures
        r@ == greeting_bytes(),
{
    let mut v: Vec<u8> = Vec::new();
    v.push(75);
    v.push(69);
    v.push(82);
    v.push(78);
    v.push(95);
    v.push(73);
    v.push(78);
    v.push(70);
    v.push(79);
    v.push(32);
    v.push(72);
    v.push(111);
    v.push(108);
    v.push(97);
    v.push(32);
    v.push(77);
    v.push(117);
    v.push(110);
    v.push(100);
    v.push(111);
    v.push(32);
    v.push(100);
    v.push(101);
    v.push(115);
    v.push(100);
    v.push(101);
    v.push(32);
    v.push(82);
    v.push(117);
    v.push(115);
    v.push(116);
    v.push(33);
    v.push(LINE_FEED);
    v.push(NUL);
    proof {
        assert(v@ =~= greeting_bytes());
    }
    v
}

/// The greeting buffer is well formed: NUL-terminated, free of format
/// specifiers, and opened by the informational severity tag. Repeated calls
/// always hand the logging function this same buffer, so a reader that stops
/// at the NUL never leaves it, however often the greeter runs.
pub proof fn lemma_greeting_message_wellformed()
    ensures
        null_terminated(greeting_bytes()),
        format_specifier_free(greeting_bytes()),
        tagged_informational(greeting_bytes()),
{
    let s = greeting_bytes();
    assert(s.subrange(0, severity_prefix().len() as int) =~= severity_prefix());
}

/// Spec-level image of one recorded logging call.
pub ghost struct LogEntrySpec {
    /// The bytes of the format buffer the logging function was handed.
    pub message: Seq<u8>,
    /// How many variadic arguments came with the buffer.
    pub vararg_count: nat,
}

/// One recorded call of the host's logging function.
pub struct LogEntry {
    /// The format buffer the logging function was handed.
    pub message: Vec<u8>,
    /// How many variadic arguments came with the buffer.
    pub vararg_count: usize,
}

impl View for LogEntry {
    type V = LogEntrySpec;

    open spec fn view(&self) -> LogEntrySpec {
        LogEntrySpec { message: self.message@, vararg_count: self.vararg_count as nat }
    }
}

/// The host's log sink, modelled as the record of every call made to the
/// logging function, oldest first. The host supplies the real sink; this one
/// stands for it in contracts and lets a test observe exactly what was logged.
pub struct KernelLog {
    /// Every recorded call, oldest first.
    pub entries: Vec<LogEntry>,
}

impl View for KernelLog {
    type V = Seq<LogEntrySpec>;

    open spec fn view(&self) -> Seq<LogEntrySpec> {
        self.entries@.map(|i: int, e: LogEntry| e@)
    }
}

impl KernelLog {
    /// A sink that has recorded nothing yet.
    pub fn new() -> (r: KernelLog)
        ensures
            r@ == Seq::<LogEntrySpec>::empty(),
    {
        let r = KernelLog { entries: Vec::new() };
        proof {
            assert(r@ =~= Seq::<LogEntrySpec>::empty());
        }
        r
    }

    /// Records one call of the logging function: the buffer it was handed and
    /// the count of variadic arguments that came with it. Nothing already
    /// recorded changes.
    pub fn record(&mut self, message: Vec<u8>, vararg_count: usize)
        ensures
            final(self)@ == old(self)@.push(
                LogEntrySpec { message: message@, vararg_count: vararg_count as nat },
            ),
    {
        let ghost before = self@;
        self.entries.push(LogEntry { message, vararg_count });
        proof {
            assert(final(self)@ =~= before.push(
                LogEntrySpec { message: message@, vararg_count: vararg_count as nat },
            ));
        }
    }

    /// How many calls have been recorded.
    pub fn len(&self) -> (r: usize)
        ensures
            r == self@.len(),
    {
        self.entries.len()
    }
}

/// The one entry the greeter appends on each call: the greeting buffer, with
/// no variadic arguments.
pub open spec fn greeting_entry() -> LogEntrySpec {
    LogEntrySpec { message: greeting_bytes(), vararg_count: 0 }
}

/// The greeter's entry point. It hands the fixed greeting buffer to the
/// host's logging function with no variadic arguments — exactly one new log
/// entry, nothing else touched — and reports success unconditionally: the
/// status is `0` whatever became of the logging call, which has no say in it.
pub fn rust_hola_mundo(log: &mut KernelLog) -> (r: i32)
    ensures
        r == 0,
        final(log)@ == old(log)@.push(greeting_entry()),
{
    let mensaje = greeting_message();
    log.record(mensaje, 0);
    0
}

/// The log as it stands after `n` further greetings: each one appends the
/// greeting entry and touches nothing else.
pub open spec fn entries_after_greetings(init: Seq<LogEntrySpec>, n: nat) -> Seq<LogEntrySpec>
    decreases n,
{
    if n == 0 {
        init
    } else {
        entries_after_greetings(init, (n - 1) as nat).push(greeting_entry())
    }
}

/// Idempotence under repetition: `n` greetings in sequence, starting from any
/// log, add exactly `n` entries, every one of them the greeting entry, and
/// leave every earlier entry as it was. (Each single call returns `0`, by the
/// contract of `rust_hola_mundo`.)
pub proof fn lemma_repeated_greetings(init: Seq<LogEntrySpec>, n: nat)
    ensures
        entries_after_greetings(init, n).len() == init.len() + n,
        forall|i: int| 0 <= i < init.len() ==> entries_after_greetings(init, n)[i] == init[i],
        forall|i: int|
            init.len() <= i < init.len() + n ==> entries_after_greetings(init, n)[i]
                == greeting_entry(),
    decreases n,
{
    if n > 0 {
        lemma_repeated_greetings(init, (n - 1) as nat);
    }
}

} // verus!
