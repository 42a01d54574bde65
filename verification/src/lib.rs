//! Instrumentation of React component modules for Fast Refresh.
//!
//! A module is given as the list of its top-level items, in the small syntax
//! of [`syntax`], together with the identifier under which the development
//! runtime knows it. [`transformer::ReactRefreshRuntime::fold_module`] finds
//! the components that the module declares, puts a signature probe into their
//! blocks and surrounds the module with the statements that register each
//! component with the runtime and accept hot updates for it. A module without
//! components comes back as it was.
//!
//! The work is done in four parts:
//!
//! - [`visitor`] collects the names that are never instrumented: imported
//!   names and classes;
//! - [`classifier`] tells which items declare a binding that may be a
//!   component;
//! - [`component`] and [`walk`] analyze the hook calls in the blocks of a
//!   declaration and probe the blocks;
//! - [`transformer`] runs the pass over the module, and [`codegen`] says what
//!   the statements around the module are.
//!
//! [`laws`] proves what holds of every module that is rewritten, and
//! [`plugin`] holds the options of the transform and the check of the
//! environment.
//!
//! The generated statements address the "context" runtime: the registration
//! and signature functions come from `global.$RefreshRuntime$`, a component is
//! registered under its local name, and it is accepted through
//! `global.$RefreshRuntime$.getContext(Component).accept()`.
pub mod classifier;
pub mod codegen;
pub mod component;
pub mod laws;
pub mod names;
pub mod plugin;
pub mod syntax;
pub mod transformer;
pub mod utils;
pub mod visitor;
pub mod walk;
