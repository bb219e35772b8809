use devserial::serial_params::{
    validate_baud, DataBits, FlowControl, ParamError, Parity, StopBits,
};

#[test]
fn parity_roundtrip() {
    for p in Parity::all() {
        assert_eq!(p.to_string().parse::<Parity>().unwrap(), p);
    }
}

#[test]
fn parity_rejects_unknown() {
    let err = "bogus".parse::<Parity>().unwrap_err();
    assert!(err.to_string().contains("invalid parity 'bogus'"));
}

#[test]
fn parity_accepts_shorthand_and_case() {
    assert_eq!("EVEN".parse::<Parity>().unwrap(), Parity::Even);
    assert_eq!("o".parse::<Parity>().unwrap(), Parity::Odd);
}

#[test]
fn flow_control_roundtrip() {
    for f in FlowControl::all() {
        assert_eq!(f.to_string().parse::<FlowControl>().unwrap(), f);
    }
}

#[test]
fn flow_control_rejects_unknown() {
    assert!("bogus".parse::<FlowControl>().is_err());
}

#[test]
fn data_bits_range() {
    assert_eq!(DataBits::try_from(8).unwrap(), DataBits::EIGHT);
    assert!(DataBits::try_from(4).is_err());
    assert!(DataBits::try_from(9).is_err());
}

#[test]
fn stop_bits_range() {
    assert_eq!(StopBits::try_from(2).unwrap(), StopBits::TWO);
    assert!(StopBits::try_from(0).is_err());
    assert!(StopBits::try_from(3).is_err());
}

#[test]
fn baud_validation() {
    assert!(validate_baud(0).is_err());
    assert_eq!(validate_baud(9600).unwrap(), 9600);
}

#[test]
fn bits_read_back_from_their_text() {
    for d in DataBits::all() {
        assert_eq!(d.to_string().parse::<DataBits>().unwrap(), d);
        assert_eq!(u8::from(d), d.get());
    }
    for s in StopBits::all() {
        assert_eq!(s.to_string().parse::<StopBits>().unwrap(), s);
        assert_eq!(u8::from(s), s.get());
    }
}

#[test]
fn each_param_error_says_what_was_expected() {
    assert_eq!(
        "x".parse::<FlowControl>().unwrap_err().to_string(),
        "invalid flow control 'x', expected one of: none, software, hardware"
    );
    assert_eq!(
        DataBits::try_from(9).unwrap_err().to_string(),
        "invalid data bits 9, expected 5, 6, 7 or 8"
    );
    assert!(matches!("x".parse::<DataBits>(), Err(ParamError::DataBitsText(_))));
    assert_eq!(
        StopBits::try_from(3).unwrap_err().to_string(),
        "invalid stop bits 3, expected 1 or 2"
    );
    assert!(matches!("x".parse::<StopBits>(), Err(ParamError::StopBitsText(_))));
    assert_eq!(
        validate_baud(0).unwrap_err().to_string(),
        "invalid baud rate 0, expected a value greater than zero"
    );
}
