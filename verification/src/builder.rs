//! The builder half of the container show protocol.
//!
//! A builder is staged configuration: while it is Configuring, chained
//! mutators each replace the whole configuration atomically; the terminal
//! show operation spends it. A spent builder rejects every further mutator
//! and a second show with a builder-reuse error, and is never observable
//! half-mutated.
//!
//! Each builder owns its open flag. A shared process-wide cell for that flag
//! would alias across nested shows; per-builder storage is what keeps an
//! inner container's configuration from reaching into an outer result.

use vstd::prelude::*;

use crate::codec::WidgetTextModel;
use crate::error::BridgeError;
use crate::host::WidgetText;

verus! {

/// Whether the builder can still be configured or has been spent.
#[derive(Clone, Copy, PartialEq, Eq, Structural, Debug)]
pub enum BuilderState {
    Configuring,
    Shown,
}

/// A window's staged configuration.
#[derive(Debug)]
pub struct WindowConfig {
    pub title: WidgetText,
    pub open: bool,
    pub collapsed: bool,
    pub enabled: bool,
    pub resizable: bool,
    pub collapsible: bool,
    pub title_bar: bool,
}

/// The mathematical model of a window configuration.
#[verifier::ext_equal]
pub struct WindowConfigModel {
    pub title: WidgetTextModel,
    pub open: bool,
    pub collapsed: bool,
    pub enabled: bool,
    pub resizable: bool,
    pub collapsible: bool,
    pub title_bar: bool,
}

impl View for WindowConfig {
    type V = WindowConfigModel;

    open spec fn view(&self) -> WindowConfigModel {
        WindowConfigModel {
            title: self.title@,
            open: self.open,
            collapsed: self.collapsed,
            enabled: self.enabled,
            resizable: self.resizable,
            collapsible: self.collapsible,
            title_bar: self.title_bar,
        }
    }
}

/// A window builder: configuration staged toward one terminal show.
#[derive(Debug)]
pub struct WindowBuilder {
    pub state: BuilderState,
    pub config: WindowConfig,
}

/// The mathematical model of a window builder.
#[verifier::ext_equal]
pub struct WindowBuilderModel {
    pub state: BuilderState,
    pub config: WindowConfigModel,
}

impl View for WindowBuilder {
    type V = WindowBuilderModel;

    open spec fn view(&self) -> WindowBuilderModel {
        WindowBuilderModel { state: self.state, config: self.config@ }
    }
}

/// What every mutator ensures: a spent builder is rejected untouched; a
/// configuring one stays configuring with exactly the named change.
pub open spec fn mutator_contract(
    before: WindowBuilderModel,
    after: WindowBuilderModel,
    r: Result<(), BridgeError>,
    changed: WindowConfigModel,
) -> bool {
    match r {
        Ok(()) => {
            &&& before.state == BuilderState::Configuring
            &&& after.state == BuilderState::Configuring
            &&& after.config == changed
        },
        Err(e) => {
            &&& before.state == BuilderState::Shown
            &&& e == BridgeError::BuilderReuse
            &&& after == before
        },
    }
}

impl WindowBuilder {
    /// A fresh builder for a window with the given title: open, expanded,
    /// enabled, resizable, collapsible, with a title bar.
    pub fn new(title: WidgetText) -> (r: WindowBuilder)
        ensures
            r@.state == BuilderState::Configuring,
            r@.config == (WindowConfigModel {
                title: title@,
                open: true,
                collapsed: false,
                enabled: true,
                resizable: true,
                collapsible: true,
                title_bar: true,
            }),
    {
        WindowBuilder {
            state: BuilderState::Configuring,
            config: WindowConfig {
                title,
                open: true,
                collapsed: false,
                enabled: true,
                resizable: true,
                collapsible: true,
                title_bar: true,
            },
        }
    }

    /// Whether the builder is spent.
    pub fn is_shown(&self) -> (r: bool)
        ensures
            r == (self@.state == BuilderState::Shown),
    {
        matches!(self.state, BuilderState::Shown)
    }

    /// Sets whether the window is open at all.
    pub fn open(&mut self, v: bool) -> (r: Result<(), BridgeError>)
        ensures
            mutator_contract(
                old(self)@,
                final(self)@,
                r,
                WindowConfigModel { open: v, ..old(self)@.config },
            ),
    {
        if matches!(self.state, BuilderState::Shown) {
            return Err(BridgeError::BuilderReuse);
        }
        self.config.open = v;
        Ok(())
    }

    /// Sets whether the window is currently collapsed to its title bar.
    pub fn collapsed(&mut self, v: bool) -> (r: Result<(), BridgeError>)
        ensures
            mutator_contract(
                old(self)@,
                final(self)@,
                r,
                WindowConfigModel { collapsed: v, ..old(self)@.config },
            ),
    {
        if matches!(self.state, BuilderState::Shown) {
            return Err(BridgeError::BuilderReuse);
        }
        self.config.collapsed = v;
        Ok(())
    }

    /// Sets whether the window's contents react to interaction.
    pub fn enabled(&mut self, v: bool) -> (r: Result<(), BridgeError>)
        ensures
            mutator_contract(
                old(self)@,
                final(self)@,
                r,
                WindowConfigModel { enabled: v, ..old(self)@.config },
            ),
    {
        if matches!(self.state, BuilderState::Shown) {
            return Err(BridgeError::BuilderReuse);
        }
        self.config.enabled = v;
        Ok(())
    }

    /// Sets whether the window can be resized.
    pub fn resizable(&mut self, v: bool) -> (r: Result<(), BridgeError>)
        ensures
            mutator_contract(
                old(self)@,
                final(self)@,
                r,
                WindowConfigModel { resizable: v, ..old(self)@.config },
            ),
    {
        if matches!(self.state, BuilderState::Shown) {
            return Err(BridgeError::BuilderReuse);
        }
        self.config.resizable = v;
        Ok(())
    }

    /// Sets whether the window can be collapsed.
    pub fn collapsible(&mut self, v: bool) -> (r: Result<(), BridgeError>)
        ensures
            mutator_contract(
                old(self)@,
                final(self)@,
                r,
                WindowConfigModel { collapsible: v, ..old(self)@.config },
            ),
    {
        if matches!(self.state, BuilderState::Shown) {
            return Err(BridgeError::BuilderReuse);
        }
        self.config.collapsible = v;
        Ok(())
    }

    /// Sets whether the window shows a title bar.
    pub fn title_bar(&mut self, v: bool) -> (r: Result<(), BridgeError>)
        ensures
            mutator_contract(
                old(self)@,
                final(self)@,
                r,
                WindowConfigModel { title_bar: v, ..old(self)@.config },
            ),
    {
        if matches!(self.state, BuilderState::Shown) {
            return Err(BridgeError::BuilderReuse);
        }
        self.config.title_bar = v;
        Ok(())
    }

    /// Spends the builder for its terminal show. A builder can be spent
    /// once: a second attempt is a builder-reuse error and changes nothing.
    pub fn mark_shown(&mut self) -> (r: Result<(), BridgeError>)
        ensures
            match r {
                Ok(()) => {
                    &&& old(self)@.state == BuilderState::Configuring
                    &&& final(self)@.state == BuilderState::Shown
                    &&& final(self)@.config == old(self)@.config
                },
                Err(e) => {
                    &&& old(self)@.state == BuilderState::Shown
                    &&& e == BridgeError::BuilderReuse
                    &&& final(self)@ == old(self)@
                },
            },
    {
        if matches!(self.state, BuilderState::Shown) {
            return Err(BridgeError::BuilderReuse);
        }
        self.state = BuilderState::Shown;
        Ok(())
    }
}

} // verus!
