/// When two texts are the same but for the case of their letters.
pub mod case;
/// Texts as sequences of characters.
pub mod chars;
/// Whole numbers in base ten, written and read.
pub mod number;
/// The order in which texts are sorted.
pub mod order;
/// Joining texts, and cutting them at a separator.
pub mod parts;
/// Whitespace: blank texts and trimming.
pub mod space;
