//! A scope-lifetime timer: it records when it was made and, when it is
//! finished, renders the time that has passed as one line of text together
//! with the place that line is meant for.

pub mod clock;
pub mod decimal;
pub mod elapsed;
pub mod format;
pub mod level;
pub mod timer;

pub use elapsed::Elapsed;
pub use format::TimeFormat;
pub use level::{LogLevel, Sink};
pub use timer::{Emission, Phase, ScopeTimer, TimerView};
