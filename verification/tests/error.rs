use natives::error::{after_throw, pending_in, HostError, Signal};

fn all_errors() -> Vec<HostError> {
    vec![
        HostError::TypeResolution,
        HostError::MemberResolution,
        HostError::ReferenceUpgrade,
        HostError::DoubleInitialization,
        HostError::NotInitialized,
        HostError::ArgumentConstruction,
        HostError::DownstreamInvocation,
    ]
}

#[test]
fn double_initialization_is_an_illegal_state() {
    let error = HostError::DoubleInitialization;
    assert_eq!(error.exception_class(), "java/lang/IllegalStateException");
    assert_eq!(error.message(), "initialize() may not be called twice");
}

#[test]
fn not_initialized_is_a_runtime_exception() {
    let error = HostError::NotInitialized;
    assert_eq!(error.exception_class(), "java/lang/RuntimeException");
    assert_eq!(error.message(), "Native data not initialized; call initialize() first");
}

#[test]
fn every_other_error_is_a_runtime_exception() {
    for error in all_errors() {
        if error != HostError::DoubleInitialization {
            assert_eq!(error.exception_class(), "java/lang/RuntimeException");
        }
    }
}

#[test]
fn messages_by_error() {
    assert_eq!(HostError::TypeResolution.message(), "Target type could not be resolved");
    assert_eq!(HostError::MemberResolution.message(), "Target member could not be resolved");
    assert_eq!(HostError::ReferenceUpgrade.message(), "Durable reference could not be created");
    assert_eq!(
        HostError::ArgumentConstruction.message(),
        "Call argument could not be constructed"
    );
    assert_eq!(HostError::DownstreamInvocation.message(), "Downstream call failed");
}

#[test]
fn messages_are_distinct() {
    let errors = all_errors();
    for (i, left) in errors.iter().enumerate() {
        for right in errors.iter().skip(i + 1) {
            assert_ne!(left.message(), right.message());
        }
    }
}

#[test]
fn exception_carries_class_and_message() {
    for error in all_errors() {
        let exception = error.exception();
        assert_eq!(exception.class, error.exception_class());
        assert_eq!(exception.message, error.message());
    }
}

#[test]
fn pending_exception_is_propagated() {
    for error in all_errors() {
        assert!(matches!(error.signal(true), Signal::Propagate));
    }
}

#[test]
fn without_pending_exception_one_is_thrown() {
    for error in all_errors() {
        match error.signal(false) {
            Signal::Throw(exception) => {
                assert_eq!(exception.class, error.exception_class());
                assert_eq!(exception.message, error.message());
            }
            Signal::Propagate => panic!("nothing was pending"),
        }
    }
}

#[test]
fn double_initialization_signal() {
    match HostError::DoubleInitialization.signal(false) {
        Signal::Throw(exception) => {
            assert_eq!(exception.class, "java/lang/IllegalStateException");
            assert_eq!(exception.message, "initialize() may not be called twice");
        }
        Signal::Propagate => panic!("nothing was pending"),
    }
}

#[test]
fn pending_answer_is_read_as_given() {
    let yes: Result<bool, String> = Ok(true);
    let no: Result<bool, String> = Ok(false);
    assert!(pending_in(yes));
    assert!(!pending_in(no));
}

#[test]
fn unanswered_pending_question_counts_as_not_pending() {
    let answer: Result<bool, String> = Err(String::from("no function table"));
    assert!(!pending_in(answer));
}

#[test]
fn accepted_throw_reached_the_host() {
    let signal = HostError::NotInitialized.signal(false);
    let answer: Result<(), String> = Ok(());
    match after_throw(signal, answer) {
        Some(Signal::Throw(exception)) => {
            assert_eq!(exception.class, "java/lang/RuntimeException");
            assert_eq!(
                exception.message,
                "Native data not initialized; call initialize() first"
            );
        }
        _ => panic!("the throw was accepted"),
    }
}

#[test]
fn refused_throw_reached_nobody() {
    let signal = HostError::DoubleInitialization.signal(false);
    let answer: Result<(), i32> = Err(-1);
    assert!(after_throw(signal, answer).is_none());
}
