//! A verified turn-based combat core.
//!
//! The library models a small but complete combat encounter: characters with
//! plain integer statistics, an ability catalog, a pure damage/heal resolver,
//! a cooldown-gated ability system, a deterministic monster policy keyed on
//! health percentage, a turn state machine, and a bounded event log.  Every
//! executable function carries a contract that pins its result down; the laws
//! the system obeys (minimum-damage clamping, cooldown decay, strict policy
//! bands, turn alternation) are stated and proved alongside the code.
//!
//! A small set of plain presentation types (screens, messages, menu and
//! status widgets) lives next to the core; rendering itself is left to the
//! embedding application.

pub mod abilities;
pub mod combat;
pub mod encounter;
pub mod log;
pub mod model;
pub mod policy;
pub mod state;
pub mod text;
pub mod widgets;

pub use abilities::AbilitySet;
pub use abilities::AbilitySlot;
pub use abilities::AbilityType;
pub use abilities::AbilityWithMeta;
pub use combat::compute_attack;
pub use combat::CombatEvent;
pub use encounter::CombatState;
pub use encounter::Encounter;
pub use log::CombatLog;
pub use model::Ability;
pub use model::Character;
pub use model::Stats;
pub use policy::choose_monster_action;
pub use state::AppState;
pub use state::Message;
pub use state::Screen;
pub use widgets::ChartStyle;
pub use widgets::Footer;
pub use widgets::GaugeStyle;
pub use widgets::Header;
pub use widgets::Menu;
pub use widgets::MenuItem;
pub use widgets::NetworkChart;
pub use widgets::ProcessStatus;
