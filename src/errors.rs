use vstd::prelude::*;

verus! {

/// Why an operation of the ledger was refused.
#[derive(Debug, Clone, Copy, PartialEq, Eq, Structural)]
pub enum CreatorEconomyError {
    /// The title is longer than `MAX_TITLE_LENGTH` characters.
    TitleTooLong,
    /// The description is longer than `MAX_DESCRIPTION_LENGTH` characters.
    DescriptionTooLong,
    /// The tip is below `MIN_TIP_AMOUNT`.
    TipTooSmall,
    /// A creator tried to tip their own content.
    CannotTipSelf,
    /// Every early-supporter slot is taken (declared; no operation raises it).
    EarlySupporterSlotsFull,
    /// A checked addition, subtraction or multiplication would overflow.
    ArithmeticOverflow,
    /// The platform's rates do not leave room for the creator's share.
    InvalidFeeRate,
    /// A payee account is not the early supporter at its position.
    InvalidSupporterAccount,
    /// A payee account cannot receive a transfer.
    AccountNotWritable,
}

} // verus!
