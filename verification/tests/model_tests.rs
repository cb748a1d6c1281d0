use inference_server::ServerError;
use inference_server::model::{parse_architecture, Architecture, ModelHolder};

#[test]
fn recognized_architectures_parse() {
    assert_eq!(parse_architecture("bloom"), Ok(Architecture::Bloom));
    assert_eq!(parse_architecture("gpt2"), Ok(Architecture::Gpt2));
    assert_eq!(parse_architecture("gptj"), Ok(Architecture::GptJ));
    assert_eq!(parse_architecture("gptneox"), Ok(Architecture::GptNeoX));
    assert_eq!(parse_architecture("llama"), Ok(Architecture::Llama));
}

#[test]
fn unrecognized_architecture_is_rejected() {
    assert_eq!(parse_architecture("gpt5"), Err(ServerError::InvalidArchitecture));
    assert_eq!(parse_architecture(""), Err(ServerError::InvalidArchitecture));
    assert_eq!(parse_architecture("LLAMA"), Err(ServerError::InvalidArchitecture));
    assert_eq!(parse_architecture("llamas"), Err(ServerError::InvalidArchitecture));
}

#[test]
fn borrow_with_no_model_fails_fast() {
    let holder = ModelHolder::new();
    assert_eq!(holder.borrow_for_inference(), Err(ServerError::NoModelLoaded));
}

#[test]
fn successful_load_installs_fresh_handle() {
    let mut holder = ModelHolder::new();
    let h = holder
        .apply_load_outcome(Architecture::Llama, Ok(()))
        .unwrap();
    assert_eq!(h.architecture, Architecture::Llama);
    assert_eq!(h.generation, 0);
    assert_eq!(holder.borrow_for_inference(), Ok(h));
}

#[test]
fn failed_load_leaves_previous_model_untouched() {
    let mut holder = ModelHolder::new();
    let h0 = holder
        .apply_load_outcome(Architecture::Gpt2, Ok(()))
        .unwrap();
    let r = holder.apply_load_outcome(Architecture::Llama, Err("file truncated".to_string()));
    assert_eq!(r, Err(ServerError::ModelLoadFailed("file truncated".to_string())));
    assert_eq!(holder.borrow_for_inference(), Ok(h0));
}

#[test]
fn replace_does_not_invalidate_borrowed_handle() {
    let mut holder = ModelHolder::new();
    holder
        .apply_load_outcome(Architecture::Gpt2, Ok(()))
        .unwrap();
    let borrowed = holder.borrow_for_inference().unwrap();
    let replacement = holder
        .apply_load_outcome(Architecture::Llama, Ok(()))
        .unwrap();
    assert_eq!(borrowed.generation, 0);
    assert_eq!(borrowed.architecture, Architecture::Gpt2);
    assert_eq!(replacement.generation, 1);
    assert_ne!(borrowed, replacement);
    assert_eq!(holder.borrow_for_inference(), Ok(replacement));
}
