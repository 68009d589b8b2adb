//! A bounded counter with round carry, its input handling, and the screen
//! drawn from it, together with a few small pieces: a queue, a stack, a
//! linked list, the turns and scoring of a dice game, and word counting.

mod draw;
mod text;

pub mod counter;
pub mod dice;
pub mod linked_list;
pub mod queues;
pub mod view;
pub mod words;

pub use counter::{App, InputEvent, KeyCode};
pub use dice::{calculer_points, lancer_des, Partie, Suite};
pub use linked_list::ListeChainee;
pub use queues::{MaFile, MaPile};
pub use view::{Extent, GaugePanel, Hue, Piece, Screen, Tint};
pub use words::{compter_frequences_optimise, compter_mots, trim_punctuation};
