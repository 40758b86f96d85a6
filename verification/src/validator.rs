//! Validation of a candidate code description.
//!
//! A description must be non-empty and at least [`MIN_DESCRIPTION_LENGTH`]
//! characters long. Even a well-formed description cannot be served yet:
//! no generation backend is configured, so validation always ends in an
//! error whose message explains how to set one up and echoes the request.

use vstd::prelude::*;

verus! {

/// Minimum number of characters a description must have before it is
/// considered detailed enough to hand to a generation backend.
pub const MIN_DESCRIPTION_LENGTH: usize = 5;

/// The message reported for an empty description.
pub open spec fn empty_message() -> Seq<char> {
    "Description cannot be empty"@
}

/// The message reported for a description shorter than
/// [`MIN_DESCRIPTION_LENGTH`] characters.
pub open spec fn too_short_message() -> Seq<char> {
    "Description is too short. Please provide a more detailed description (at least 5 characters)."@
}

/// Everything of the backend-unavailable message that precedes the echoed
/// request: the setup instructions, up to and including the opening quote.
pub open spec fn backend_message_prefix() -> Seq<char> {
    "Model not configured. To enable code generation:\n1. Download a GGUF model file (e.g., from Hugging Face)\n2. Place it in a 'models' directory in the project root\n3. Update the generate_code() function to load and use the model\n4. See README.md for detailed instructions\n\nYour request: '"@
}

/// The message reported for a well-formed description while no generation
/// backend is configured: the setup instructions, then the request itself
/// in single quotes.
pub open spec fn backend_message(description: Seq<char>) -> Seq<char> {
    backend_message_prefix() + description + "'"@
}

/// How the validator classifies a candidate description.
///
/// `Acceptable` means the description passed both syntactic checks; whether
/// anything can be generated from it is then the backend's concern.
#[derive(Clone, Copy, Debug, PartialEq, Eq, Structural)]
pub enum DescriptionCheck {
    Empty,
    TooShort,
    Acceptable,
}

/// The classification of a description, by its character count alone.
pub open spec fn spec_classify(description: Seq<char>) -> DescriptionCheck {
    if description.len() == 0 {
        DescriptionCheck::Empty
    } else if description.len() < MIN_DESCRIPTION_LENGTH as nat {
        DescriptionCheck::TooShort
    } else {
        DescriptionCheck::Acceptable
    }
}

/// Classifies a candidate description: empty, too short, or acceptable.
pub fn classify_description(description: &str) -> (check: DescriptionCheck)
    ensures
        check == spec_classify(description@),
{
    if description.is_empty() {
        DescriptionCheck::Empty
    } else if description.unicode_len() < MIN_DESCRIPTION_LENGTH {
        DescriptionCheck::TooShort
    } else {
        DescriptionCheck::Acceptable
    }
}

/// The message that validating `description` reports, for each possible
/// classification. While no backend is configured there is a message for
/// every description: validation never succeeds.
pub open spec fn validation_message(description: Seq<char>) -> Seq<char> {
    match spec_classify(description) {
        DescriptionCheck::Empty => empty_message(),
        DescriptionCheck::TooShort => too_short_message(),
        DescriptionCheck::Acceptable => backend_message(description),
    }
}

/// Validates `description` and, were a backend configured, would generate
/// code from it.
///
/// Today there is no success path: every description is answered with an
/// error, whose message is exactly `validation_message` of the input. An
/// empty description and a too-short description are rejected outright; an
/// acceptable one is answered with the backend-unavailable message, which
/// echoes the request in single quotes.
pub fn generate_code(description: &str) -> (result: Result<String, String>)
    ensures
        result is Err,
        result matches Err(message) && message@ == validation_message(description@),
{
    match classify_description(description) {
        DescriptionCheck::Empty => Err(String::from_str("Description cannot be empty")),
        DescriptionCheck::TooShort => Err(
            String::from_str(
                "Description is too short. Please provide a more detailed description (at least 5 characters).",
            ),
        ),
        DescriptionCheck::Acceptable => {
            let mut message = String::from_str(
                "Model not configured. To enable code generation:\n1. Download a GGUF model file (e.g., from Hugging Face)\n2. Place it in a 'models' directory in the project root\n3. Update the generate_code() function to load and use the model\n4. See README.md for detailed instructions\n\nYour request: '",
            );
            message.append(description);
            message.append("'");
            Err(message)
        },
    }
}

/// Whether `needle` occurs as a contiguous run of characters inside `text`.
pub open spec fn contains_seq(text: Seq<char>, needle: Seq<char>) -> bool {
    exists|i: int|
        0 <= i && i + needle.len() <= text.len() && #[trigger] text.subrange(i, i + needle.len())
            == needle
}

/// Validating any description of one to four characters reports a message
/// that says "too short".
pub proof fn lemma_short_description_says_too_short(description: Seq<char>)
    requires
        0 < description.len() < MIN_DESCRIPTION_LENGTH as nat,
    ensures
        validation_message(description) == too_short_message(),
        contains_seq(validation_message(description), "too short"@),
{
    reveal_strlit(
        "Description is too short. Please provide a more detailed description (at least 5 characters).",
    );
    reveal_strlit("too short");
    let needle = "too short"@;
    assert(too_short_message().subrange(15, 15 + needle.len() as int) =~= needle);
}

/// Validating any description of five or more characters reports a message
/// that says the model is not configured and carries the description
/// itself, in single quotes, whatever it was.
pub proof fn lemma_long_description_reaches_the_backend(description: Seq<char>)
    requires
        description.len() >= MIN_DESCRIPTION_LENGTH as nat,
    ensures
        validation_message(description) == backend_message(description),
        contains_seq(validation_message(description), "Model not configured"@),
        contains_seq(validation_message(description), "'"@ + description + "'"@),
{
    reveal_strlit(
        "Model not configured. To enable code generation:\n1. Download a GGUF model file (e.g., from Hugging Face)\n2. Place it in a 'models' directory in the project root\n3. Update the generate_code() function to load and use the model\n4. See README.md for detailed instructions\n\nYour request: '",
    );
    reveal_strlit("Model not configured");
    reveal_strlit("'");
    let message = backend_message(description);
    let named = "Model not configured"@;
    assert(message.subrange(0, 0 + named.len() as int) =~= named);
    let quoted = "'"@ + description + "'"@;
    let start = backend_message_prefix().len() as int - 1;
    assert(message.subrange(start, start + quoted.len() as int) =~= quoted);
}

/// A non-empty description is never answered with the message reserved for
/// an empty one: the read loop filters blank lines out, but nothing is lost
/// where a caller does not.
pub proof fn lemma_nonempty_never_reported_empty(description: Seq<char>)
    requires
        description.len() > 0,
    ensures
        validation_message(description) != empty_message(),
{
    reveal_strlit("Description cannot be empty");
    reveal_strlit(
        "Description is too short. Please provide a more detailed description (at least 5 characters).",
    );
    reveal_strlit(
        "Model not configured. To enable code generation:\n1. Download a GGUF model file (e.g., from Hugging Face)\n2. Place it in a 'models' directory in the project root\n3. Update the generate_code() function to load and use the model\n4. See README.md for detailed instructions\n\nYour request: '",
    );
    reveal_strlit("'");
    assert(validation_message(description).len() != empty_message().len());
}

} // verus!
