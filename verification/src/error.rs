//! How the frontend's operations fail, and what they say about it.

use vstd::prelude::*;
use vstd::string::StringExecFns;

verus! {

/// A call on the connection to the backend.
#[derive(Debug, Clone, Copy, PartialEq, Eq, Structural)]
pub enum CallName {
    /// `GET_FEATURES`.
    GetFeatures,
    /// `GET_PROTOCOL_FEATURES`.
    GetProtocolFeatures,
    /// `SET_PROTOCOL_FEATURES`.
    SetProtocolFeatures,
    /// `SET_OWNER`.
    SetOwner,
    /// `GET_QUEUE_NUM`.
    GetQueueNum,
    /// `SET_MEM_TABLE`.
    SetMemTable,
    /// `SET_FEATURES`.
    SetFeatures,
    /// `SET_VRING_NUM`.
    SetVringNum,
    /// `SET_VRING_ADDR`.
    SetVringAddr,
    /// `SET_VRING_BASE`.
    SetVringBase,
    /// `SET_VRING_KICK`.
    SetVringKick,
    /// `SET_VRING_CALL`.
    SetVringCall,
    /// `SET_VRING_ENABLE`.
    SetVringEnable,
}

/// Why an operation of the frontend failed. `E` is the error of the caller's own
/// work: a call to the backend, or handling memory and events.
#[derive(Debug)]
pub enum FrontendError<E> {
    /// A call to the backend failed.
    Call {
        /// Which call.
        call: CallName,
        /// How it failed.
        source: E,
    },
    /// The configuration has no queues.
    NoQueues,
    /// The configuration has more queues than a device can have.
    TooManyQueues(usize),
    /// The configuration has more queues than the backend supports.
    ExceedsBackend {
        /// How many queues were asked for.
        requested: u16,
        /// How many the backend supports.
        supported: u16,
    },
    /// Guest memory is not backed by a file that can be shared.
    NotShareable,
    /// The regions of guest memory could not be had.
    Regions(E),
    /// The kick event could not be duplicated.
    KickEvent(E),
    /// No event could be had for the queue's interrupt.
    Interrupt(E),
    /// The interrupt event could not be duplicated.
    InterruptEvent(E),
}

/// The decimal digit of a number below ten.
pub open spec fn digit(n: nat) -> char {
    (('0' as nat) + n) as char
}

/// A number in decimal, without leading zeros.
pub open spec fn decimal(n: nat) -> Seq<char>
    decreases n,
{
    if n < 10 {
        seq![digit(n)]
    } else {
        decimal(n / 10).push(digit(n % 10))
    }
}

/// The decimal digit of a number below ten.
fn digit_str(n: u64) -> (s: &'static str)
    requires
        n < 10,
    ensures
        s@ == seq![digit(n as nat)],
{
    proof {
        reveal_strlit("0");
        reveal_strlit("1");
        reveal_strlit("2");
        reveal_strlit("3");
        reveal_strlit("4");
        reveal_strlit("5");
        reveal_strlit("6");
        reveal_strlit("7");
        reveal_strlit("8");
        reveal_strlit("9");
    }
    match n {
        0 => "0",
        1 => "1",
        2 => "2",
        3 => "3",
        4 => "4",
        5 => "5",
        6 => "6",
        7 => "7",
        8 => "8",
        _ => "9",
    }
}

/// A number in decimal, without leading zeros.
pub fn to_decimal(n: u64) -> (s: String)
    ensures
        s@ == decimal(n as nat),
    decreases n,
{
    if n < 10 {
        String::from_str(digit_str(n))
    } else {
        let mut s: String = to_decimal(n / 10);
        s.append(digit_str(n % 10));
        assert(s@ =~= decimal(n as nat));
        s
    }
}

/// What is said of a call that failed.
pub open spec fn call_context(call: CallName) -> Seq<char> {
    match call {
        CallName::GetFeatures => "GET_FEATURES failed"@,
        CallName::GetProtocolFeatures => "GET_PROTOCOL_FEATURES failed"@,
        CallName::SetProtocolFeatures => "SET_PROTOCOL_FEATURES failed"@,
        CallName::SetOwner => "SET_OWNER failed"@,
        CallName::GetQueueNum => "GET_QUEUE_NUM failed despite MQ being negotiated"@,
        CallName::SetMemTable => "SET_MEM_TABLE failed"@,
        CallName::SetFeatures => "SET_FEATURES failed"@,
        CallName::SetVringNum => "SET_VRING_NUM failed"@,
        CallName::SetVringAddr => "SET_VRING_ADDR failed"@,
        CallName::SetVringBase => "SET_VRING_BASE failed"@,
        CallName::SetVringKick => "SET_VRING_KICK failed"@,
        CallName::SetVringCall => "SET_VRING_CALL failed"@,
        CallName::SetVringEnable => "SET_VRING_ENABLE failed"@,
    }
}

impl CallName {
    /// What is said of this call when it failed.
    pub fn context(&self) -> (context: &'static str)
        ensures
            context@ == call_context(*self),
    {
        match self {
            CallName::GetFeatures => "GET_FEATURES failed",
            CallName::GetProtocolFeatures => "GET_PROTOCOL_FEATURES failed",
            CallName::SetProtocolFeatures => "SET_PROTOCOL_FEATURES failed",
            CallName::SetOwner => "SET_OWNER failed",
            CallName::GetQueueNum => "GET_QUEUE_NUM failed despite MQ being negotiated",
            CallName::SetMemTable => "SET_MEM_TABLE failed",
            CallName::SetFeatures => "SET_FEATURES failed",
            CallName::SetVringNum => "SET_VRING_NUM failed",
            CallName::SetVringAddr => "SET_VRING_ADDR failed",
            CallName::SetVringBase => "SET_VRING_BASE failed",
            CallName::SetVringKick => "SET_VRING_KICK failed",
            CallName::SetVringCall => "SET_VRING_CALL failed",
            CallName::SetVringEnable => "SET_VRING_ENABLE failed",
        }
    }
}

/// What is said of an operation that failed, apart from the caller's own error.
/// Where there is nothing to add to that, it is `None`.
pub open spec fn error_context<E>(error: FrontendError<E>) -> Option<Seq<char>> {
    match error {
        FrontendError::Call { call, source } => Some(call_context(call)),
        FrontendError::NoQueues => Some("queue_sizes must be non-empty"@),
        FrontendError::TooManyQueues(count) => Some(
            "queue_sizes has "@ + decimal(count as nat)
                + " entries, exceeding maximum supported queue count "@ + decimal(u16::MAX as nat),
        ),
        FrontendError::ExceedsBackend { requested, supported } => Some(
            "requested "@ + decimal(requested as nat) + " queues but backend supports at most "@
                + decimal(supported as nat),
        ),
        FrontendError::NotShareable => Some(
            "vhost-user requires file-backed guest memory (sharing() returned None)"@,
        ),
        FrontendError::Regions(source) => None,
        FrontendError::KickEvent(source) => Some("failed to duplicate kick event"@),
        FrontendError::Interrupt(source) => None,
        FrontendError::InterruptEvent(source) => Some("failed to duplicate interrupt event"@),
    }
}

impl<E> FrontendError<E> {
    /// What to say of this error, apart from the caller's own error in it.
    pub fn context(&self) -> (context: Option<String>)
        ensures
            error_context(*self) is Some <==> context is Some,
            context matches Some(context) ==> Some(context@) == error_context(*self),
    {
        match self {
            FrontendError::Call { call, .. } => Some(String::from_str(call.context())),
            FrontendError::NoQueues => Some(String::from_str("queue_sizes must be non-empty")),
            FrontendError::TooManyQueues(count) => {
                let mut s: String = String::from_str("queue_sizes has ");
                s.append(to_decimal(*count as u64).as_str());
                s.append(" entries, exceeding maximum supported queue count ");
                s.append(to_decimal(u16::MAX as u64).as_str());
                Some(s)
            },
            FrontendError::ExceedsBackend { requested, supported } => {
                let mut s: String = String::from_str("requested ");
                s.append(to_decimal(*requested as u64).as_str());
                s.append(" queues but backend supports at most ");
                s.append(to_decimal(*supported as u64).as_str());
                Some(s)
            },
            FrontendError::NotShareable => Some(
                String::from_str(
                    "vhost-user requires file-backed guest memory (sharing() returned None)",
                ),
            ),
            FrontendError::Regions(_) => None,
            FrontendError::KickEvent(_) => Some(
                String::from_str("failed to duplicate kick event"),
            ),
            FrontendError::Interrupt(_) => None,
            FrontendError::InterruptEvent(_) => Some(
                String::from_str("failed to duplicate interrupt event"),
            ),
        }
    }
}

} // verus!
