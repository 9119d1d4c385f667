use vstd::prelude::*;
use vstd::string::StringExecFns;

verus! {

/// Kinds of failure a command can report to the user.
#[derive(Clone, Copy, PartialEq, Eq, Structural, Debug)]
pub enum ErrorType {
    TooManyArgs,
    SpecifySlot,
    SpecifyFile,
    NoCurrentDirectory,
    NoHomeDirectory,
    InvalidHistoryLength,
    InvalidStepsLength,
    SmallTerminal,
    IllegalAction,
    NotInitialized,
    NoAccessParent,
    ExistsInventory,
    ExistsDestination,
    NoFileOrDir,
}

/// Marks that can prefix a user-facing message.
#[derive(Clone, Copy, PartialEq, Eq, Structural, Debug)]
pub enum EmojiType {
    Celebrate,
    Success,
    Warning,
    Inventory,
}

/// The emoji prefix that belongs to each kind of message.
pub open spec fn emoji_text(message: EmojiType) -> Seq<char> {
    match message {
        EmojiType::Celebrate => "🎉 "@,
        EmojiType::Success => "✅ "@,
        EmojiType::Inventory => "🗃️ "@,
        EmojiType::Warning => "⚠️ "@,
    }
}

/// Returns the emoji prefix for a message, or nothing when emoji display is off.
pub fn append_emoji(message: EmojiType, display_emoji: bool) -> (r: String)
    ensures
        display_emoji ==> r@ == emoji_text(message),
        !display_emoji ==> r@ == Seq::<char>::empty(),
{
    if display_emoji {
        match message {
            EmojiType::Celebrate => String::from_str("🎉 "),
            EmojiType::Success => String::from_str("✅ "),
            EmojiType::Inventory => String::from_str("🗃️ "),
            EmojiType::Warning => String::from_str("⚠️ "),
        }
    } else {
        String::new()
    }
}

/// The message that belongs to each kind of failure.
pub open spec fn error_text(error: ErrorType) -> Seq<char> {
    match error {
        ErrorType::TooManyArgs => "Too many arguments"@,
        ErrorType::SpecifyFile => "You need to specify a file"@,
        ErrorType::SpecifySlot => "You need to specify a slot"@,
        ErrorType::NoCurrentDirectory => "Vento was unable to detect your current directory. Have you configured your environment correctly?"@,
        ErrorType::NoHomeDirectory => "Vento was unable to detect your home directory. Have you configured your environment correctly?"@,
        ErrorType::InvalidHistoryLength => "Invalid history length"@,
        ErrorType::InvalidStepsLength => "Invalid steps length"@,
        ErrorType::SmallTerminal => "Your terminal needs to be at least 83 columns wide"@,
        ErrorType::IllegalAction => "Illegal action"@,
        ErrorType::NotInitialized => "Vento not initialized. Run \"vento -i\" to initialize Vento"@,
        ErrorType::NoAccessParent => "Cannot access parent"@,
        ErrorType::ExistsInventory => "A file with the same name already exists in your inventory!"@,
        ErrorType::ExistsDestination => "A file with the same name already exists in the destination! Try renaming it or dropping this file somewhere else"@,
        ErrorType::NoFileOrDir => "No such file or directory"@,
    }
}

/// Builds the failure a command surfaces: always an `Err` carrying the message for `error`.
pub fn throw_error(error: ErrorType) -> (r: Result<(), String>)
    ensures
        r is Err,
        r->Err_0@ == error_text(error),
{
    Err(
        match error {
            ErrorType::TooManyArgs => String::from_str("Too many arguments"),
            ErrorType::SpecifyFile => String::from_str("You need to specify a file"),
            ErrorType::SpecifySlot => String::from_str("You need to specify a slot"),
            ErrorType::NoCurrentDirectory => String::from_str("Vento was unable to detect your current directory. Have you configured your environment correctly?"),
            ErrorType::NoHomeDirectory => String::from_str("Vento was unable to detect your home directory. Have you configured your environment correctly?"),
            ErrorType::InvalidHistoryLength => String::from_str("Invalid history length"),
            ErrorType::InvalidStepsLength => String::from_str("Invalid steps length"),
            ErrorType::SmallTerminal => String::from_str("Your terminal needs to be at least 83 columns wide"),
            ErrorType::IllegalAction => String::from_str("Illegal action"),
            ErrorType::NotInitialized => String::from_str("Vento not initialized. Run \"vento -i\" to initialize Vento"),
            ErrorType::NoAccessParent => String::from_str("Cannot access parent"),
            ErrorType::ExistsInventory => String::from_str("A file with the same name already exists in your inventory!"),
            ErrorType::ExistsDestination => String::from_str("A file with the same name already exists in the destination! Try renaming it or dropping this file somewhere else"),
            ErrorType::NoFileOrDir => String::from_str("No such file or directory"),
        },
    )
}

} // verus!
