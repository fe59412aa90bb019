use vstd::prelude::*;

verus! {

/// One-byte opcode that starts every control-channel frame.
#[derive(Debug, Clone, Copy, PartialEq, Eq, Structural)]
pub enum MessageType {
    Sign,
    SignWaitApprove,
    SignApprove,
    Trace,
    /// Stands for any byte that is not a known opcode.
    Undefined,
}

/// The byte that encodes each opcode on the wire.
pub open spec fn opcode_byte(m: MessageType) -> u8 {
    match m {
        MessageType::Sign => 0x22,
        MessageType::SignWaitApprove => 0x23,
        MessageType::SignApprove => 0x24,
        MessageType::Trace => 0x25,
        MessageType::Undefined => 0x99,
    }
}

/// The opcode that a byte denotes, if it denotes a known one.
pub open spec fn opcode_of_byte(b: u8) -> Option<MessageType> {
    if b == 0x22 {
        Some(MessageType::Sign)
    } else if b == 0x23 {
        Some(MessageType::SignWaitApprove)
    } else if b == 0x24 {
        Some(MessageType::SignApprove)
    } else if b == 0x25 {
        Some(MessageType::Trace)
    } else {
        None
    }
}

/// What a decoder reports for a byte: the opcode, or `Undefined`.
pub open spec fn decoded_opcode(b: u8) -> MessageType {
    match opcode_of_byte(b) {
        Some(m) => m,
        None => MessageType::Undefined,
    }
}

impl MessageType {
    /// The wire byte of this opcode.
    pub fn to_byte(self) -> (r: u8)
        ensures
            r == opcode_byte(self),
    {
        match self {
            MessageType::Sign => 0x22,
            MessageType::SignWaitApprove => 0x23,
            MessageType::SignApprove => 0x24,
            MessageType::Trace => 0x25,
            MessageType::Undefined => 0x99,
        }
    }

    /// The opcode of a wire byte; unknown bytes give `Undefined`.
    pub fn from_byte(b: u8) -> (r: MessageType)
        ensures
            r == decoded_opcode(b),
    {
        match MessageType::try_from(b) {
            Ok(m) => m,
            Err(_) => MessageType::Undefined,
        }
    }
}

impl From<MessageType> for u8 {
    fn from(v: MessageType) -> (r: u8)
        ensures
            r == opcode_byte(v),
    {
        v.to_byte()
    }
}

impl vstd::std_specs::convert::FromSpecImpl<MessageType> for u8 {
    open spec fn obeys_from_spec() -> bool {
        true
    }

    open spec fn from_spec(v: MessageType) -> u8 {
        opcode_byte(v)
    }
}

impl TryFrom<u8> for MessageType {
    type Error = ();

    fn try_from(value: u8) -> (r: Result<MessageType, ()>)
        ensures
            r == (match opcode_of_byte(value) {
                Some(m) => Ok(m),
                None => Err(()),
            }),
    {
        if value == 0x22 {
            Ok(MessageType::Sign)
        } else if value == 0x23 {
            Ok(MessageType::SignWaitApprove)
        } else if value == 0x24 {
            Ok(MessageType::SignApprove)
        } else if value == 0x25 {
            Ok(MessageType::Trace)
        } else {
            Err(())
        }
    }
}

impl vstd::std_specs::convert::TryFromSpecImpl<u8> for MessageType {
    open spec fn obeys_try_from_spec() -> bool {
        true
    }

    open spec fn try_from_spec(v: u8) -> Result<MessageType, ()> {
        match opcode_of_byte(v) {
            Some(m) => Ok(m),
            None => Err(()),
        }
    }
}

/// Every known opcode is read back from its own byte.
pub proof fn lemma_opcode_round_trip(m: MessageType)
    requires
        m != MessageType::Undefined,
    ensures
        opcode_of_byte(opcode_byte(m)) == Some(m),
        decoded_opcode(opcode_byte(m)) == m,
{
}

} // verus!
