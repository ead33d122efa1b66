//! Debug-mask filtering and the logging entry points' emission rules.

use vstd::prelude::*;

verus! {

/// Bit flag for core-subsystem debug logging, as the host defines it.
pub const NGX_LOG_DEBUG_CORE: u32 = 0x010;
/// Bit flag for allocator debug logging, as the host defines it.
pub const NGX_LOG_DEBUG_ALLOC: u32 = 0x020;
/// Bit flag for mutex debug logging, as the host defines it.
pub const NGX_LOG_DEBUG_MUTEX: u32 = 0x040;
/// Bit flag for event-subsystem debug logging, as the host defines it.
pub const NGX_LOG_DEBUG_EVENT: u32 = 0x080;
/// Bit flag for HTTP debug logging, as the host defines it.
pub const NGX_LOG_DEBUG_HTTP: u32 = 0x100;
/// Bit flag for mail-subsystem debug logging, as the host defines it.
pub const NGX_LOG_DEBUG_MAIL: u32 = 0x200;
/// Bit flag for stream-subsystem debug logging, as the host defines it.
pub const NGX_LOG_DEBUG_STREAM: u32 = 0x400;
/// Union of every debug bit the host may ever define: the "everything" mask.
pub const NGX_LOG_DEBUG_ALL: u32 = 0x7ffffff0;

/// The host's lowest single-category debug bit.
pub const NGX_LOG_DEBUG_FIRST: u32 = NGX_LOG_DEBUG_CORE;
/// The host's highest single-category debug bit.
pub const NGX_LOG_DEBUG_LAST: u32 = NGX_LOG_DEBUG_STREAM;

/// The fixed numeric severity the host assigns to debug-level messages.
pub const NGX_LOG_DEBUG: usize = 8;

/// Debug masks naming the host's diagnostic subsystems; these are the only
/// accepted categories for mask-filtered debug logging.
#[derive(Debug, Clone, Copy)]
pub enum DebugMask {
    /// Aligns to the NGX_LOG_DEBUG_CORE mask.
    Core,
    /// Aligns to the NGX_LOG_DEBUG_ALLOC mask.
    Alloc,
    /// Aligns to the NGX_LOG_DEBUG_MUTEX mask.
    Mutex,
    /// Aligns to the NGX_LOG_DEBUG_EVENT mask.
    Event,
    /// Aligns to the NGX_LOG_DEBUG_HTTP mask.
    Http,
    /// Aligns to the NGX_LOG_DEBUG_MAIL mask.
    Mail,
    /// Aligns to the NGX_LOG_DEBUG_STREAM mask.
    Stream,
    /// Aligns to the NGX_LOG_DEBUG_ALL mask.
    All,
}

/// The numeric bit flag the host assigns to each debug mask.
pub open spec fn mask_bits(mask: DebugMask) -> u32 {
    match mask {
        DebugMask::Core => NGX_LOG_DEBUG_CORE,
        DebugMask::Alloc => NGX_LOG_DEBUG_ALLOC,
        DebugMask::Mutex => NGX_LOG_DEBUG_MUTEX,
        DebugMask::Event => NGX_LOG_DEBUG_EVENT,
        DebugMask::Http => NGX_LOG_DEBUG_HTTP,
        DebugMask::Mail => NGX_LOG_DEBUG_MAIL,
        DebugMask::Stream => NGX_LOG_DEBUG_STREAM,
        DebugMask::All => NGX_LOG_DEBUG_ALL,
    }
}

/// Whether a sink's log-level bitfield enables a debug mask: the mask's bit
/// flag intersected with the bitfield is non-zero.
pub open spec fn mask_enabled(mask: DebugMask, log_level: usize) -> bool {
    log_level & (mask_bits(mask) as usize) != 0
}

/// Utility function to provide typed checking of the mask's field state.
#[inline(always)]
pub fn check_mask(mask: DebugMask, log_level: usize) -> (enabled: bool)
    ensures
        enabled == mask_enabled(mask, log_level),
{
    let mask_bits: u32 = mask.into();
    if log_level & mask_bits as usize == 0 {
        return false;
    }
    true
}

impl From<DebugMask> for u32 {
    fn from(value: DebugMask) -> (bits: u32) {
        match value {
            DebugMask::Core => NGX_LOG_DEBUG_CORE,
            DebugMask::Alloc => NGX_LOG_DEBUG_ALLOC,
            DebugMask::Mutex => NGX_LOG_DEBUG_MUTEX,
            DebugMask::Event => NGX_LOG_DEBUG_EVENT,
            DebugMask::Http => NGX_LOG_DEBUG_HTTP,
            DebugMask::Mail => NGX_LOG_DEBUG_MAIL,
            DebugMask::Stream => NGX_LOG_DEBUG_STREAM,
            DebugMask::All => NGX_LOG_DEBUG_ALL,
        }
    }
}

impl vstd::std_specs::convert::FromSpecImpl<DebugMask> for u32 {
    open spec fn obeys_from_spec() -> bool {
        true
    }

    open spec fn from_spec(v: DebugMask) -> u32 {
        mask_bits(v)
    }
}

/// The partial inverse of `mask_bits`: a numeric value converts back only
/// when it is exactly one host-defined flag; anything else, zero and
/// multi-bit unions included, is rejected with the value itself as the
/// error payload.
pub open spec fn mask_of_bits(value: u32) -> Result<DebugMask, u32> {
    if value == NGX_LOG_DEBUG_CORE {
        Ok(DebugMask::Core)
    } else if value == NGX_LOG_DEBUG_ALLOC {
        Ok(DebugMask::Alloc)
    } else if value == NGX_LOG_DEBUG_MUTEX {
        Ok(DebugMask::Mutex)
    } else if value == NGX_LOG_DEBUG_EVENT {
        Ok(DebugMask::Event)
    } else if value == NGX_LOG_DEBUG_HTTP {
        Ok(DebugMask::Http)
    } else if value == NGX_LOG_DEBUG_MAIL {
        Ok(DebugMask::Mail)
    } else if value == NGX_LOG_DEBUG_STREAM {
        Ok(DebugMask::Stream)
    } else if value == NGX_LOG_DEBUG_ALL {
        Ok(DebugMask::All)
    } else {
        Err(value)
    }
}

impl TryFrom<u32> for DebugMask {
    type Error = u32;

    fn try_from(value: u32) -> (r: Result<DebugMask, u32>)
        ensures
            r == mask_of_bits(value),
    {
        if value == NGX_LOG_DEBUG_CORE {
            Ok(DebugMask::Core)
        } else if value == NGX_LOG_DEBUG_ALLOC {
            Ok(DebugMask::Alloc)
        } else if value == NGX_LOG_DEBUG_MUTEX {
            Ok(DebugMask::Mutex)
        } else if value == NGX_LOG_DEBUG_EVENT {
            Ok(DebugMask::Event)
        } else if value == NGX_LOG_DEBUG_HTTP {
            Ok(DebugMask::Http)
        } else if value == NGX_LOG_DEBUG_MAIL {
            Ok(DebugMask::Mail)
        } else if value == NGX_LOG_DEBUG_STREAM {
            Ok(DebugMask::Stream)
        } else if value == NGX_LOG_DEBUG_ALL {
            Ok(DebugMask::All)
        } else {
            Err(value)
        }
    }
}

impl vstd::std_specs::convert::TryFromSpecImpl<u32> for DebugMask {
    open spec fn obeys_try_from_spec() -> bool {
        true
    }

    open spec fn try_from_spec(v: u32) -> Result<DebugMask, u32> {
        mask_of_bits(v)
    }
}

/// One write handed to the host's logging primitive: the numeric severity,
/// the reserved error-code slot, and the formatted message bytes with their
/// length carried explicitly by the vector.
pub struct LogRecord {
    /// Numeric severity the message is tagged with; lower means more severe.
    pub level: usize,
    /// Reserved host error-code slot; the facade always leaves it at zero.
    pub err: usize,
    /// The formatted message bytes.
    pub message: Vec<u8>,
}

/// What the record built for an admitted message must look like.
pub open spec fn emitted_record(r: Option<LogRecord>, level: usize, message: Seq<u8>) -> bool {
    &&& r matches Some(rec)
    &&& rec.level == level
    &&& rec.err == 0
    &&& rec.message@ == message
}

/// The error-level entry point's emission rule: a message is forwarded to
/// the host's core write primitive exactly when its severity is numerically
/// below the sink's configured log level, tagged with the caller's severity
/// and carrying the message bytes unchanged; otherwise nothing is forwarded.
pub fn log_error(level: usize, log_level: usize, message: Vec<u8>) -> (r: Option<LogRecord>)
    ensures
        level < log_level ==> emitted_record(r, level, message@),
        level >= log_level ==> r is None,
{
    if level < log_level {
        Some(LogRecord { level, err: 0, message })
    } else {
        None
    }
}

/// The configuration-context error entry point: the same admission rule as
/// `log_error`, but the sink is the one embedded in the configuration
/// context and the record is bound for the host's configuration-log
/// primitive rather than the core one.
pub fn conf_log_error(level: usize, log_level: usize, message: Vec<u8>) -> (r: Option<LogRecord>)
    ensures
        level < log_level ==> emitted_record(r, level, message@),
        level >= log_level ==> r is None,
{
    if level < log_level {
        Some(LogRecord { level, err: 0, message })
    } else {
        None
    }
}

/// The mask-filtered debug entry point: the message is forwarded exactly
/// when the sink's log-level bitfield enables the requested mask, always
/// tagged at the fixed debug severity.
pub fn log_debug_mask(mask: DebugMask, log_level: usize, message: Vec<u8>) -> (r: Option<
    LogRecord,
>)
    ensures
        mask_enabled(mask, log_level) ==> emitted_record(r, NGX_LOG_DEBUG, message@),
        !mask_enabled(mask, log_level) ==> r is None,
{
    if check_mask(mask, log_level) {
        Some(LogRecord { level: NGX_LOG_DEBUG, err: 0, message })
    } else {
        None
    }
}

/// The default debug entry point: `log_debug_mask` with the mask fixed to
/// `DebugMask::All`, so the message passes whenever any debug bit of the
/// sink's log level is set.
pub fn log_debug(log_level: usize, message: Vec<u8>) -> (r: Option<LogRecord>)
    ensures
        mask_enabled(DebugMask::All, log_level) ==> emitted_record(r, NGX_LOG_DEBUG, message@),
        !mask_enabled(DebugMask::All, log_level) ==> r is None,
{
    log_debug_mask(DebugMask::All, log_level, message)
}

/// The request-scoped debug entry point: `log_debug_mask` with the mask
/// fixed to `DebugMask::Http`; the caller reads the log level from the
/// request's connection log.
pub fn log_debug_http(log_level: usize, message: Vec<u8>) -> (r: Option<LogRecord>)
    ensures
        mask_enabled(DebugMask::Http, log_level) ==> emitted_record(r, NGX_LOG_DEBUG, message@),
        !mask_enabled(DebugMask::Http, log_level) ==> r is None,
{
    log_debug_mask(DebugMask::Http, log_level, message)
}

/// A mask naming exactly one diagnostic subsystem, as opposed to the `All`
/// union sentinel.
pub open spec fn single_category(mask: DebugMask) -> bool {
    !(mask is All)
}

/// Converting any mask to its numeric flag and back yields the mask again.
pub proof fn lemma_mask_roundtrip(mask: DebugMask)
    ensures
        mask_of_bits(mask_bits(mask)) == Ok::<DebugMask, u32>(mask),
{
}

/// A numeric value converts to a mask exactly when it equals one of the
/// host's flag constants; every other value, zero and multi-bit unions
/// included, fails with that exact value as the error payload.
pub proof fn lemma_conversion_error_payload(value: u32)
    ensures
        mask_of_bits(value) is Err <==> !(value == NGX_LOG_DEBUG_CORE || value == NGX_LOG_DEBUG_ALLOC
            || value == NGX_LOG_DEBUG_MUTEX || value == NGX_LOG_DEBUG_EVENT || value
            == NGX_LOG_DEBUG_HTTP || value == NGX_LOG_DEBUG_MAIL || value == NGX_LOG_DEBUG_STREAM
            || value == NGX_LOG_DEBUG_ALL),
        mask_of_bits(value) matches Err(e) ==> e == value,
{
}

/// A log level of zero disables every mask, the `All` sentinel included.
pub proof fn lemma_zero_level_disables(mask: DebugMask)
    ensures
        !mask_enabled(mask, 0),
{
    let bits: usize = mask_bits(mask) as usize;
    assert(0usize & bits == 0) by (bit_vector);
}

/// With only one category's bit set in the log level, the filter admits
/// that category and rejects every other single category.
pub proof fn lemma_single_bit_filter(enabled: DebugMask, other: DebugMask)
    requires
        single_category(enabled),
        single_category(other),
        other != enabled,
    ensures
        mask_enabled(enabled, mask_bits(enabled) as usize),
        !mask_enabled(other, mask_bits(enabled) as usize),
{
    let a: usize = mask_bits(enabled) as usize;
    let c: usize = mask_bits(other) as usize;
    assert(a & a != 0 && a & c == 0) by (bit_vector)
        requires
            a == 0x10 || a == 0x20 || a == 0x40 || a == 0x80 || a == 0x100 || a == 0x200 || a
                == 0x400,
            c == 0x10 || c == 0x20 || c == 0x40 || c == 0x80 || c == 0x100 || c == 0x200 || c
                == 0x400,
            a != c,
    ;
}

/// With two categories' bits set in the log level, the filter admits each
/// of the two independently and still rejects any third single category.
pub proof fn lemma_independent_bits(first: DebugMask, second: DebugMask, other: DebugMask)
    requires
        single_category(first),
        single_category(second),
        single_category(other),
        other != first,
        other != second,
    ensures
        mask_enabled(first, (mask_bits(first) as usize) | (mask_bits(second) as usize)),
        mask_enabled(second, (mask_bits(first) as usize) | (mask_bits(second) as usize)),
        !mask_enabled(other, (mask_bits(first) as usize) | (mask_bits(second) as usize)),
{
    let a: usize = mask_bits(first) as usize;
    let b: usize = mask_bits(second) as usize;
    let c: usize = mask_bits(other) as usize;
    assert((a | b) & a != 0 && (a | b) & b != 0 && (a | b) & c == 0) by (bit_vector)
        requires
            a == 0x10 || a == 0x20 || a == 0x40 || a == 0x80 || a == 0x100 || a == 0x200 || a
                == 0x400,
            b == 0x10 || b == 0x20 || b == 0x40 || b == 0x80 || b == 0x100 || b == 0x200 || b
                == 0x400,
            c == 0x10 || c == 0x20 || c == 0x40 || c == 0x80 || c == 0x100 || c == 0x200 || c
                == 0x400,
            a != c,
            b != c,
    ;
}

} // verus!
