//! The dialog configuration: which icon, title and level a registered
//! handler should use, and how each unset field resolves to its fallback.

use vstd::prelude::*;

verus! {

/// The dialog levels a configuration can ask for.
#[derive(Clone, Copy, PartialEq, Eq, Structural, Debug)]
pub enum VisualPanicLevel {
    /// Error level
    Error,
    /// Warning level
    Warning,
    /// Info level
    Info,
}

/// The mathematical image of a configuration: what each optional field
/// was set to, with strings seen as character sequences.
pub ghost struct ConfigView {
    pub icon: Option<Seq<char>>,
    pub title: Option<Seq<char>>,
    pub level: Option<VisualPanicLevel>,
}

/// The settings a handler is registered with. Every field is optional:
/// an unset field resolves to its fallback when a failure is handled,
/// not at construction time.
#[derive(Clone)]
pub struct VisualPanic {
    /// Optional path of a custom icon. Accepted but not rendered yet;
    /// reserved for future use.
    custom_icon: Option<String>,
    /// Optional custom dialog title. Any string is accepted.
    custom_title: Option<String>,
    /// Optional custom dialog level.
    custom_level: Option<VisualPanicLevel>,
}

impl View for VisualPanic {
    type V = ConfigView;

    closed spec fn view(&self) -> ConfigView {
        ConfigView {
            icon: match self.custom_icon {
                Some(s) => Some(s@),
                None => None,
            },
            title: match self.custom_title {
                Some(s) => Some(s@),
                None => None,
            },
            level: self.custom_level,
        }
    }
}

/// The view of an optional borrowed string.
pub open spec fn opt_str_view(s: Option<&str>) -> Option<Seq<char>> {
    match s {
        Some(t) => Some(t@),
        None => None,
    }
}

/// The title used when none was configured: this library's name.
pub open spec fn default_title() -> Seq<char> {
    "visualpanic_rs"@
}

/// The title a configuration resolves to: the configured one if set,
/// else the library's name.
pub open spec fn resolved_title(c: ConfigView) -> Seq<char> {
    match c.title {
        Some(t) => t,
        None => default_title(),
    }
}

/// The level a configuration resolves to: the configured one if set,
/// else `Error`.
pub open spec fn resolved_level(c: ConfigView) -> VisualPanicLevel {
    match c.level {
        Some(l) => l,
        None => VisualPanicLevel::Error,
    }
}

/// The icon a configuration resolves to: the configured one if set,
/// else none.
pub open spec fn resolved_icon(c: ConfigView) -> Option<Seq<char>> {
    c.icon
}

impl VisualPanic {
    /// A configuration with every field unset.
    pub fn default() -> (r: Self)
        ensures
            r@ == (ConfigView { icon: None, title: None, level: None }),
    {
        VisualPanic { custom_icon: None, custom_title: None, custom_level: None }
    }

    /// A configuration with exactly the given fields set.
    pub fn new(
        custom_icon: Option<&str>,
        custom_title: Option<&str>,
        custom_level: Option<VisualPanicLevel>,
    ) -> (r: Self)
        ensures
            r@ == (ConfigView {
                icon: opt_str_view(custom_icon),
                title: opt_str_view(custom_title),
                level: custom_level,
            }),
    {
        let mut return_val = VisualPanic {
            custom_icon: None,
            custom_title: None,
            custom_level: None,
        };
        if let Some(icon_str) = custom_icon {
            return_val.custom_icon = Some(icon_str.to_owned());
        }
        if let Some(title_str) = custom_title {
            return_val.custom_title = Some(title_str.to_owned());
        }
        if let Some(level) = custom_level {
            return_val.custom_level = Some(level);
        }
        return_val
    }

    /// The title the handler will display for this configuration.
    pub fn resolve_title(&self) -> (r: String)
        ensures
            r@ == resolved_title(self@),
    {
        match &self.custom_title {
            Some(custom) => custom.clone(),
            None => "visualpanic_rs".to_owned(),
        }
    }

    /// The dialog level the handler will use for this configuration.
    pub fn resolve_level(&self) -> (r: VisualPanicLevel)
        ensures
            r == resolved_level(self@),
    {
        match &self.custom_level {
            Some(custom) => *custom,
            None => VisualPanicLevel::Error,
        }
    }

    /// The icon the handler will pass on for this configuration.
    /// Resolved like the other fields, though not rendered yet.
    pub fn resolve_icon(&self) -> (r: Option<String>)
        ensures
            match r {
                Some(s) => resolved_icon(self@) == Some(s@),
                None => resolved_icon(self@) is None,
            },
    {
        match &self.custom_icon {
            Some(custom) => Some(custom.clone()),
            None => None,
        }
    }
}

/// A configuration with no field set resolves every parameter to its
/// fallback: the library's name as title, the `Error` level, and no icon.
pub proof fn lemma_default_resolution(c: ConfigView)
    requires
        c.icon is None,
        c.title is None,
        c.level is None,
    ensures
        resolved_title(c) == default_title(),
        resolved_level(c) == VisualPanicLevel::Error,
        resolved_icon(c) is None,
{
}

/// Only the fields that were set override the fallbacks; every absent
/// field resolves exactly as it does for a configuration with no field
/// set at all.
pub proof fn lemma_partial_override(c: ConfigView, unset: ConfigView)
    requires
        unset.icon is None,
        unset.title is None,
        unset.level is None,
    ensures
        c.title matches Some(t) ==> resolved_title(c) == t,
        c.title is None ==> resolved_title(c) == resolved_title(unset),
        c.level matches Some(l) ==> resolved_level(c) == l,
        c.level is None ==> resolved_level(c) == resolved_level(unset),
        c.icon matches Some(i) ==> resolved_icon(c) == Some(i),
        c.icon is None ==> resolved_icon(c) == resolved_icon(unset),
{
}

} // verus!
