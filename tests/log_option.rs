use flexi_syslog::log_option::{
    LogOption, LOG_CONS, LOG_NDELAY, LOG_NOWAIT, LOG_ODELAY, LOG_PERROR, LOG_PID,
};

#[test]
fn should_display() {
    assert_eq!(&LogOption::new(LOG_CONS).to_string(), "LOG_CONS");

    assert_eq!(
        &LogOption::new(LOG_CONS).union(LogOption::new(LOG_PID)).to_string(),
        "LOG_CONS | LOG_PID"
    );
}

#[test]
fn flags_match_libc() {
    assert_eq!(LOG_CONS, libc::LOG_CONS);
    assert_eq!(LOG_NDELAY, libc::LOG_NDELAY);
    assert_eq!(LOG_NOWAIT, libc::LOG_NOWAIT);
    assert_eq!(LOG_ODELAY, libc::LOG_ODELAY);
    assert_eq!(LOG_PERROR, libc::LOG_PERROR);
    assert_eq!(LOG_PID, libc::LOG_PID);
}

#[test]
fn set_operations() {
    let all = LogOption::all();
    assert_eq!(all.bits, 0x3f);
    assert_eq!(all.to_string(), "LOG_CONS | LOG_NDELAY | LOG_NOWAIT | LOG_ODELAY | LOG_PERROR | LOG_PID");
    assert!(LogOption::empty().is_empty());
    assert!(!LogOption::empty().is_set());
    assert_eq!(LogOption::empty().to_string(), "");
    assert_eq!(LogOption::default(), LogOption::empty());
    let cp = LogOption::new(LOG_CONS).union(LogOption::new(LOG_PID));
    assert!(cp.is_set());
    assert_eq!(cp.difference(LogOption::new(LOG_PID)), LogOption::new(LOG_CONS));
    assert_eq!(cp.intersection(LogOption::new(LOG_PID)), LogOption::new(LOG_PID));
    assert_eq!(cp.symmetric_difference(LogOption::new(LOG_PID)), LogOption::new(LOG_CONS));
    assert_eq!(cp.complement().to_string(), "LOG_NDELAY | LOG_NOWAIT | LOG_ODELAY | LOG_PERROR");
}
