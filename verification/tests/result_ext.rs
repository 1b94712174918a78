use tracing_spanned::ErrorDisplay;
use tracing_spanned::ResultTracingExt;
use tracing_spanned::SpanErr;
use tracing_spanned::SpannedResultExt;

struct CustomError {
    message: String,
}

impl CustomError {
    fn from_text(text: &str) -> CustomError {
        CustomError { message: format!("custom: {text}") }
    }
}

impl ErrorDisplay for CustomError {
    fn display(&self) -> String {
        self.message.clone()
    }
}

#[test]
fn ok_passes_through_in_current_span() {
    let r: Result<u32, String> = Ok(42);
    let wrapped = r.in_current_span();
    assert!(matches!(wrapped, Ok(42)));
}

#[test]
fn ok_passes_through_spanned_map_err() {
    let r: Result<u32, SpanErr<String>> = Ok(42);
    let mapped = r.spanned_map_err(|e| format!("{e}!"));
    assert!(matches!(mapped, Ok(42)));
}

#[test]
fn err_is_wrapped_with_context() {
    let raw = "abc".parse::<u32>().unwrap_err();
    let raw_text = raw.to_string();
    let r: Result<u32, String> = "abc".parse::<u32>().map_err(|e| e.to_string());
    let wrapped = r.in_current_span();
    match wrapped {
        Ok(_) => panic!("parsing \"abc\" as u32 must fail"),
        Err(w) => {
            assert_eq!(w.error, raw_text);
            assert_eq!(w.display(), raw_text);
        }
    }
}

#[test]
fn wrapped_err_is_transformed_in_place() {
    let r: Result<u32, String> = "abc".parse::<u32>().map_err(|e| e.to_string());
    let wrapped = r.in_current_span();
    let span_text = match &wrapped {
        Ok(_) => panic!("parsing \"abc\" as u32 must fail"),
        Err(w) => format!("{}", w.span),
    };
    let mapped = wrapped.spanned_map_err(|e| CustomError::from_text(&e));
    match mapped {
        Ok(_) => panic!("transformation must keep the failure"),
        Err(w) => {
            assert_eq!(w.display(), "custom: invalid digit found in string");
            assert_eq!(format!("{}", w.span), span_text);
        }
    }
}
