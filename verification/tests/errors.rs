use zenroom_minimal::error::{
    ErrorKind, EvalError, FormatDetail, LoadError, ResolverError,
};
use zenroom_minimal::evaluation::{EvaluationResult, ExecutionOutcome};
use zenroom_minimal::text::check_text;

#[test]
fn resolver_error_messages() {
    assert_eq!(
        ResolverError::NotFound("ecdh".to_string()).message(),
        "scenario not found: ecdh"
    );
    assert_eq!(
        ResolverError::ExternalFailure("callback raised ValueError".to_string()).message(),
        "resolver failed: callback raised ValueError"
    );
    assert_eq!(ResolverError::Timeout.message(), "resolver timed out");
}

#[test]
fn eval_error_kinds() {
    assert_eq!(EvalError::NoScript.kind(), ErrorKind::NoScript);
    assert_eq!(
        EvalError::ScenarioResolutionFailed("a".to_string(), ResolverError::Timeout).kind(),
        ErrorKind::ScenarioResolutionFailed
    );
    assert_eq!(
        EvalError::ExecutionFailed("boom".to_string()).kind(),
        ErrorKind::ExecutionFailed
    );
}

#[test]
fn eval_error_messages() {
    assert_eq!(EvalError::NoScript.message(), "no script loaded");
    assert_eq!(
        EvalError::ScenarioResolutionFailed(
            "ecdh".to_string(),
            ResolverError::NotFound("ecdh".to_string())
        )
        .message(),
        "cannot resolve scenario 'ecdh': scenario not found: ecdh"
    );
    assert_eq!(
        EvalError::ScenarioResolutionFailed("x".to_string(), ResolverError::Timeout).message(),
        "cannot resolve scenario 'x': resolver timed out"
    );
    assert_eq!(
        EvalError::ExecutionFailed("line 3: nil value".to_string()).message(),
        "execution failed: line 3: nil value"
    );
}

#[test]
fn load_error_message() {
    let error = LoadError::InvalidFormat(FormatDetail {
        reason: "text holds a NUL character".to_string(),
        excerpt: "print('".to_string(),
    });
    assert_eq!(
        error.message(),
        "invalid format: text holds a NUL character after \"print('\""
    );
}

#[test]
fn check_text_accepts_text_without_nul() {
    assert_eq!(check_text(""), Ok(()));
    assert_eq!(check_text("print('ok')"), Ok(()));
    assert_eq!(check_text("{\"clé\": \"→\"}\n"), Ok(()));
}

#[test]
fn check_text_refuses_nul_with_reason_and_excerpt() {
    assert_eq!(
        check_text("abc\0def\0"),
        Err(LoadError::InvalidFormat(FormatDetail {
            reason: "text holds a NUL character".to_string(),
            excerpt: "abc".to_string(),
        }))
    );
    assert_eq!(
        check_text("\0"),
        Err(LoadError::InvalidFormat(FormatDetail {
            reason: "text holds a NUL character".to_string(),
            excerpt: "".to_string(),
        }))
    );
}

#[test]
fn check_text_excerpt_is_the_last_thirty_two_characters() {
    let text = "0123456789abcdefghijklmnopqrstuvwxyz\0tail";
    assert_eq!(
        check_text(text),
        Err(LoadError::InvalidFormat(FormatDetail {
            reason: "text holds a NUL character".to_string(),
            excerpt: "456789abcdefghijklmnopqrstuvwxyz".to_string(),
        }))
    );
}

#[test]
fn outcome_with_output_becomes_output() {
    assert_eq!(
        EvaluationResult::from_outcome(ExecutionOutcome::Completed("ok".to_string())),
        Ok(EvaluationResult::Output("ok".to_string()))
    );
    assert_eq!(
        EvaluationResult::from_outcome(ExecutionOutcome::Completed(" ".to_string())),
        Ok(EvaluationResult::Output(" ".to_string()))
    );
}

#[test]
fn outcome_without_output_becomes_no_output() {
    assert_eq!(
        EvaluationResult::from_outcome(ExecutionOutcome::Completed(String::new())),
        Ok(EvaluationResult::NoOutput)
    );
}

#[test]
fn failed_outcome_becomes_execution_failed() {
    assert_eq!(
        EvaluationResult::from_outcome(ExecutionOutcome::Failed("bad opcode".to_string())),
        Err(EvalError::ExecutionFailed("bad opcode".to_string()))
    );
    assert_eq!(
        EvaluationResult::from_outcome(ExecutionOutcome::Failed(String::new())),
        Err(EvalError::ExecutionFailed(String::new()))
    );
}

#[test]
fn from_answer_keeps_what_succeeded() {
    assert_eq!(
        EvaluationResult::from_answer(Ok(EvaluationResult::Output("ok".to_string()))),
        EvaluationResult::Output("ok".to_string())
    );
    assert_eq!(
        EvaluationResult::from_answer(Ok(EvaluationResult::NoOutput)),
        EvaluationResult::NoOutput
    );
}

#[test]
fn from_answer_folds_a_failure_with_kind_and_message() {
    assert_eq!(
        EvaluationResult::from_answer(Err(EvalError::NoScript)),
        EvaluationResult::Failure(ErrorKind::NoScript, "no script loaded".to_string())
    );
    assert_eq!(
        EvaluationResult::from_answer(Err(EvalError::ScenarioResolutionFailed(
            "ecdh".to_string(),
            ResolverError::ExternalFailure("boom".to_string())
        ))),
        EvaluationResult::Failure(
            ErrorKind::ScenarioResolutionFailed,
            "cannot resolve scenario 'ecdh': resolver failed: boom".to_string()
        )
    );
    assert_eq!(
        EvaluationResult::from_answer(Err(EvalError::ExecutionFailed("x".to_string()))),
        EvaluationResult::Failure(ErrorKind::ExecutionFailed, "execution failed: x".to_string())
    );
}
