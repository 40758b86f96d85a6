use ia_coding::validator::{classify_description, generate_code, DescriptionCheck};

#[test]
fn test_generate_code_empty_input() {
    let result = generate_code("");
    assert!(result.is_err());
    assert_eq!(result.unwrap_err(), "Description cannot be empty");
}

#[test]
fn test_generate_code_short_input() {
    let result = generate_code("test");
    assert!(result.is_err());
    assert!(result.unwrap_err().contains("too short"));
}

#[test]
fn test_generate_code_valid_input() {
    let result = generate_code("Create a for loop in Rust");
    // Currently returns error as model is not loaded
    assert!(result.is_err());
}

#[test]
fn short_input_message_is_exact() {
    let result = generate_code("test");
    assert_eq!(
        result.unwrap_err(),
        "Description is too short. Please provide a more detailed description (at least 5 characters)."
    );
}

#[test]
fn valid_input_names_the_missing_model_and_echoes_the_request() {
    let result = generate_code("Create a for loop in Rust");
    let message = result.unwrap_err();
    assert!(message.contains("Model not configured"));
    assert!(message.contains("'Create a for loop in Rust'"));
}

#[test]
fn valid_input_message_is_exact() {
    let result = generate_code("Create a for loop in Rust");
    let expected = "Model not configured. To enable code generation:\n\
                    1. Download a GGUF model file (e.g., from Hugging Face)\n\
                    2. Place it in a 'models' directory in the project root\n\
                    3. Update the generate_code() function to load and use the model\n\
                    4. See README.md for detailed instructions\n\
                    \n\
                    Your request: 'Create a for loop in Rust'";
    assert_eq!(result.unwrap_err(), expected);
}

#[test]
fn four_characters_are_too_short() {
    let result = generate_code("abcd");
    assert!(result.unwrap_err().contains("too short"));
}

#[test]
fn five_characters_reach_the_backend_check() {
    let result = generate_code("abcde");
    let message = result.unwrap_err();
    assert!(message.contains("Model not configured"));
    assert!(message.contains("'abcde'"));
}

#[test]
fn length_counts_characters_not_bytes() {
    // Five characters, six bytes: long enough.
    let result = generate_code("h\u{e9}llo");
    assert!(result.unwrap_err().contains("Model not configured"));
}

#[test]
fn no_input_generates_code() {
    let inputs = ["", "a", "ab", "abc", "abcd", "abcde", "quit", "exit", "Sort a vector of pairs"];
    for input in inputs {
        assert!(generate_code(input).is_err());
    }
}

#[test]
fn classification_follows_the_length() {
    assert_eq!(classify_description(""), DescriptionCheck::Empty);
    assert_eq!(classify_description("a"), DescriptionCheck::TooShort);
    assert_eq!(classify_description("abcd"), DescriptionCheck::TooShort);
    assert_eq!(classify_description("abcde"), DescriptionCheck::Acceptable);
    assert_eq!(classify_description("Create a for loop in Rust"), DescriptionCheck::Acceptable);
}
