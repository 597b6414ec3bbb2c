use hyperlight_core::CoreError;
use hyperlight_core::outb::{Exception, OutBAction};

#[test]
fn outb_action_decode_is_total_or_reject() {
    // Decoding succeeds exactly for the recognized codes, and for every
    // other 16-bit value fails with the typed decode error.
    let valid: [u16; 7] = [99, 101, 102, 103, 104, 105, 106];
    for code in 0..=u16::MAX {
        let r = OutBAction::try_from(code);
        if valid.contains(&code) {
            assert!(r.is_ok());
        } else {
            assert_eq!(r.err().unwrap(), CoreError::InvalidOutBActionCode(code));
        }
    }
}

#[test]
fn outb_action_decode_maps_each_code() {
    assert!(matches!(OutBAction::try_from(99), Ok(OutBAction::Log)));
    assert!(matches!(OutBAction::try_from(101), Ok(OutBAction::CallFunction)));
    assert!(matches!(OutBAction::try_from(102), Ok(OutBAction::Abort)));
    assert!(matches!(OutBAction::try_from(103), Ok(OutBAction::DebugPrint)));
    assert!(matches!(OutBAction::try_from(104), Ok(OutBAction::TraceBatch)));
    assert!(matches!(OutBAction::try_from(105), Ok(OutBAction::TraceMemoryAlloc)));
    assert!(matches!(OutBAction::try_from(106), Ok(OutBAction::TraceMemoryFree)));
    assert!(OutBAction::try_from(1000).is_err());
    assert!(OutBAction::try_from(100).is_err());
    assert!(OutBAction::try_from(0).is_err());
}

#[test]
fn exception_decode_is_total_or_reject() {
    // Decoding succeeds exactly for 0..=20, 30, and the 0xFF sentinel.
    for value in 0..=u8::MAX {
        let r = Exception::try_from(value);
        if value <= 20 || value == 30 || value == 0xFF {
            assert_eq!(r.unwrap().code(), value);
        } else {
            assert_eq!(r.err().unwrap(), CoreError::UnknownExceptionCode(value));
        }
    }
}

#[test]
fn exception_decode_examples() {
    assert!(matches!(Exception::try_from(0), Ok(Exception::DivideByZero)));
    assert!(matches!(Exception::try_from(13), Ok(Exception::GeneralProtectionFault)));
    assert!(matches!(Exception::try_from(30), Ok(Exception::SecurityException)));
    assert!(matches!(Exception::try_from(0xFF), Ok(Exception::NoException)));
    assert!(Exception::try_from(21).is_err());
    assert!(Exception::try_from(200).is_err());
}
