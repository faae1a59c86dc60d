//! A construction kit for self-referential containers: values that own some data and
//! hold a view of that data, and that are moved and stored like any other value.
//!
//! - [`data_source`]: owners are split into a stable raw form and an auxiliary value,
//!   read and written through the raw form, and put back together.
//! - [`slot`]: the three states of a container: no view, a shared view, an exclusive
//!   view.
//! - [`erase`]: a slot is stored in a type that names no span, and taken out again.
//! - [`family`], [`self_ref`], [`uninhabited`]: the types that stand for a view at
//!   every span, and the casts between spans.
//! - [`aliasable`]: what a container shows of itself that outlasts its moves.
pub mod aliasable;
pub mod data_source;
pub mod erase;
pub mod family;
pub mod self_ref;
pub mod slot;
pub mod uninhabited;

pub use aliasable::{
    AliasableClone, AliasableRefMut, AliasableView, AliasableViewMut, IntoAliasable,
    IntoAliasableMut, View, ViewMut,
};
pub use data_source::{
    BorrowEvent, BorrowState, CloneableDataSource, DataSource, MutableDataSource, Raw, RawData,
};
pub use erase::{DefaultErase, EraseSelfRef, LifetimeErase};
pub use family::{
    BivariantFamily, ContravariantFamily, CovariantFamily, ImplyBound, LifetimeFamily, Varying,
    WithLifetime,
};
pub use self_ref::SelfRef;
pub use slot::{SelfRefSlot, SlotState};
pub use uninhabited::{NeverExclusiveRef, NeverNoRef, NeverSharedRef};
