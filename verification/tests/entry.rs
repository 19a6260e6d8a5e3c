use brain_rs::callable::{tell_as_text, CallableEntry};
use brain_rs::error::CallError;

fn strings(items: &[&str]) -> Vec<String> {
    items.iter().map(|item| item.to_string()).collect()
}

fn double(args: &[String]) -> Result<u32, CallError> {
    match args {
        [token] => match token.parse::<u32>() {
            Ok(number) => match number.checked_mul(2) {
                Some(doubled) => Ok(doubled),
                None => Err(CallError::ExecutionError("Result out of range".to_string())),
            },
            Err(_) => Err(CallError::InvalidArguments("Invalid number".to_string())),
        },
        _ => Err(CallError::InvalidArguments("Expected 1 argument".to_string())),
    }
}

#[test]
fn entry_keeps_its_signature() {
    let entry = CallableEntry::new(double, String::from("double(n: uint) -> uint"));
    assert_eq!(entry.signature(), "double(n: uint) -> uint");
    let _ = entry.invoke(&strings(&["4"]));
    assert_eq!(entry.signature(), "double(n: uint) -> uint");
}

#[test]
fn entry_takes_an_empty_signature() {
    let entry = CallableEntry::new(double, String::new());
    assert_eq!(entry.signature(), "");
}

#[test]
fn entry_tells_the_value_as_text() {
    let entry = CallableEntry::new(double, String::from("double(n: uint) -> uint"));
    match entry.invoke(&strings(&["21"])) {
        Ok(text) => assert_eq!(text, "42"),
        Err(_) => panic!("doubling 21 must succeed"),
    }
}

#[test]
fn entry_hands_on_the_argument_error() {
    let entry = CallableEntry::new(double, String::from("double(n: uint) -> uint"));
    match entry.invoke(&strings(&["x"])) {
        Err(CallError::InvalidArguments(message)) => assert_eq!(message, "Invalid number"),
        _ => panic!("a token that is no number must give InvalidArguments"),
    }
    match entry.invoke(&strings(&[])) {
        Err(CallError::InvalidArguments(message)) => assert_eq!(message, "Expected 1 argument"),
        _ => panic!("a missing argument must give InvalidArguments"),
    }
}

#[test]
fn entry_hands_on_the_execution_error() {
    let entry = CallableEntry::new(double, String::from("double(n: uint) -> uint"));
    match entry.invoke(&strings(&["4000000000"])) {
        Err(CallError::ExecutionError(message)) => assert_eq!(message, "Result out of range"),
        _ => panic!("an overflow must give ExecutionError"),
    }
}

#[test]
fn entry_can_be_called_again_and_again() {
    let entry = CallableEntry::new(double, String::from("double(n: uint) -> uint"));
    for number in 0u32..5 {
        match entry.invoke(&[number.to_string()]) {
            Ok(text) => assert_eq!(text, (number * 2).to_string()),
            Err(_) => panic!("doubling a small number must succeed"),
        }
    }
}

#[test]
fn value_is_told_in_its_display_form() {
    match tell_as_text(Ok::<i32, CallError>(-17)) {
        Ok(text) => assert_eq!(text, "-17"),
        Err(_) => panic!("a value must stay a success"),
    }
    match tell_as_text(Ok::<bool, CallError>(true)) {
        Ok(text) => assert_eq!(text, "true"),
        Err(_) => panic!("a value must stay a success"),
    }
    match tell_as_text(Ok::<String, CallError>(String::from("Moved to (10, 20)"))) {
        Ok(text) => assert_eq!(text, "Moved to (10, 20)"),
        Err(_) => panic!("a value must stay a success"),
    }
}

#[test]
fn error_is_told_as_it_is() {
    match tell_as_text(Err::<i32, CallError>(CallError::ExecutionError(String::from("late")))) {
        Err(CallError::ExecutionError(message)) => assert_eq!(message, "late"),
        _ => panic!("an execution error must stay one"),
    }
    match tell_as_text(Err::<i32, CallError>(CallError::InvalidArguments(String::from("odd")))) {
        Err(CallError::InvalidArguments(message)) => assert_eq!(message, "odd"),
        _ => panic!("an argument error must stay one"),
    }
}
