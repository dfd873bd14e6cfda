//! Naming conventions for types that implement certain Bevy traits.
//!
//! | Trait       | Convention                |
//! |-------------|---------------------------|
//! | `Plugin`    | name ends in "Plugin"     |
//! | `SystemSet` | name ends in "Systems"    |

use vstd::prelude::*;

use crate::diag::Applicability;
use crate::expr::Span;
use crate::paths::BevyPath;
use crate::text::{concat, concat2, ends_with, is_prefix, is_suffix, strip_prefix, strip_suffix};
use crate::ty::path_equals;

verus! {

/// A Bevy trait whose implementors follow a naming convention.
#[derive(Clone, Copy, Debug, PartialEq, Eq, Structural)]
pub enum TraitConvention {
    SystemSet,
    Plugin,
}

impl TraitConvention {
    pub open spec fn spec_name(self) -> Seq<char> {
        match self {
            TraitConvention::SystemSet => "SystemSet"@,
            TraitConvention::Plugin => "Plugin"@,
        }
    }

    pub open spec fn spec_suffix(self) -> Seq<char> {
        match self {
            TraitConvention::SystemSet => "Systems"@,
            TraitConvention::Plugin => "Plugin"@,
        }
    }

    /// The convention of the trait at `trait_path`, if it has one.
    pub open spec fn spec_of_trait(trait_path: Seq<Seq<char>>) -> Option<TraitConvention> {
        if trait_path == BevyPath::SystemSet.spec_segments() {
            Some(TraitConvention::SystemSet)
        } else if trait_path == BevyPath::Plugin.spec_segments() {
            Some(TraitConvention::Plugin)
        } else {
            None
        }
    }

    /// The convention of the trait that an `impl` block implements, given the definition path of
    /// that trait (`None` for an inherent `impl`).
    pub fn try_from_impl(trait_path: Option<&Vec<String>>) -> (r: Option<TraitConvention>)
        ensures
            r == match trait_path {
                Some(p) => Self::spec_of_trait(crate::ty::strings_view(p@)),
                None => None,
            },
    {
        match trait_path {
            None => None,
            Some(p) => if path_equals(p, BevyPath::SystemSet) {
                Some(TraitConvention::SystemSet)
            } else if path_equals(p, BevyPath::Plugin) {
                Some(TraitConvention::Plugin)
            } else {
                None
            },
        }
    }

    /// The trait's name.
    pub fn name(&self) -> (r: &'static str)
        ensures
            r@ == self.spec_name(),
    {
        match self {
            TraitConvention::SystemSet => "SystemSet",
            TraitConvention::Plugin => "Plugin",
        }
    }

    /// The suffix that implementors' names end in.
    pub fn suffix(&self) -> (r: &'static str)
        ensures
            r@ == self.spec_suffix(),
    {
        match self {
            TraitConvention::SystemSet => "Systems",
            TraitConvention::Plugin => "Plugin",
        }
    }

    /// "unconventional type name for a `{trait}`"
    pub fn lint_description(&self) -> (r: String)
        ensures
            r@ == "unconventional type name for a `"@ + self.spec_name() + "`"@,
    {
        let r = concat(&["unconventional type name for a `", self.name(), "`"]);
        proof {
            reveal_with_fuel(crate::text::concat_all, 4);
        }
        r
    }

    /// "structures that implement `{trait}` should end in "{suffix}""
    pub fn note(&self) -> (r: String)
        ensures
            r@ == "structures that implement `"@ + self.spec_name() + "` should end in \""@
                + self.spec_suffix() + "\""@,
    {
        let r = concat(
            &["structures that implement `", self.name(), "` should end in \"", self.suffix(), "\""],
        );
        proof {
            reveal_with_fuel(crate::text::concat_all, 6);
        }
        r
    }

    /// "`{trait}` implemented here"
    pub fn implemented_here(&self) -> (r: String)
        ensures
            r@ == "`"@ + self.spec_name() + "` implemented here"@,
    {
        let r = concat(&["`", self.name(), "` implemented here"]);
        proof {
            reveal_with_fuel(crate::text::concat_all, 4);
        }
        r
    }

    /// The name follows the convention.
    pub open spec fn spec_matches(self, name: Seq<char>) -> bool {
        is_suffix(self.spec_suffix(), name)
    }

    /// Whether a type name follows the convention.
    pub fn matches_conventional_name(&self, struct_name: &str) -> (r: bool)
        ensures
            r == self.spec_matches(struct_name@),
    {
        ends_with(struct_name, self.suffix())
    }

    /// The name suggested in place of `name`.
    ///
    /// For `SystemSet`, a name ending in one of the competing suffixes "System", "Set" or
    /// "Steps" (tried in that order) has it replaced by "Systems"; any other name gets
    /// "Systems" appended. For `Plugin`, a name starting with "Plugin" has it moved to the end,
    /// a name ending in "Plugins" is made singular, and any other name gets "Plugin" appended.
    pub open spec fn spec_name_suggestion(self, name: Seq<char>) -> Seq<char> {
        match self {
            TraitConvention::SystemSet => if is_suffix("System"@, name) {
                name.subrange(0, name.len() - "System"@.len()) + "Systems"@
            } else if is_suffix("Set"@, name) {
                name.subrange(0, name.len() - "Set"@.len()) + "Systems"@
            } else if is_suffix("Steps"@, name) {
                name.subrange(0, name.len() - "Steps"@.len()) + "Systems"@
            } else {
                name + "Systems"@
            },
            TraitConvention::Plugin => if is_prefix("Plugin"@, name) {
                name.subrange("Plugin"@.len() as int, name.len() as int) + "Plugin"@
            } else if is_suffix("Plugins"@, name) {
                name.subrange(0, name.len() - "Plugins"@.len()) + "Plugin"@
            } else {
                name + "Plugin"@
            },
        }
    }

    /// Suggests a name for the type that follows the convention.
    pub fn name_suggestion(&self, struct_name: &str) -> (r: String)
        ensures
            r@ == self.spec_name_suggestion(struct_name@),
    {
        match self {
            TraitConvention::SystemSet => {
                if let Some(stripped) = strip_suffix(struct_name, "System") {
                    return concat2(stripped, self.suffix());
                }
                if let Some(stripped) = strip_suffix(struct_name, "Set") {
                    return concat2(stripped, self.suffix());
                }
                if let Some(stripped) = strip_suffix(struct_name, "Steps") {
                    return concat2(stripped, self.suffix());
                }
                concat2(struct_name, self.suffix())
            },
            TraitConvention::Plugin => {
                if let Some(stripped) = strip_prefix(struct_name, "Plugin") {
                    return concat2(stripped, self.suffix());
                }
                if let Some(stripped) = strip_suffix(struct_name, "Plugins") {
                    return concat2(stripped, self.suffix());
                }
                concat2(struct_name, self.suffix())
            },
        }
    }
}

/// The suggested name always follows the convention.
pub proof fn lemma_suggestion_follows_convention(c: TraitConvention, name: Seq<char>)
    ensures
        c.spec_matches(c.spec_name_suggestion(name)),
{
    let s = c.spec_name_suggestion(name);
    let suffix = c.spec_suffix();
    assert(exists|a: Seq<char>| s == a + suffix);
    let a = choose|a: Seq<char>| s == a + suffix;
    crate::text::lemma_suffix_of_concat(a, suffix);
}

/// What the `Self` type of an `impl` block resolves to, for the naming lints.
pub enum SelfDef {
    /// The type does not resolve to a definition.
    Unresolved,
    /// The type is one of the `impl` block's own generic parameters.
    GenericParam,
    /// A definition without a name of its own.
    Unnamed,
    /// A named type definition.
    Named {
        /// The name the type was declared with (not the one it may have been imported under).
        name: String,
        /// The span of that name in the declaration.
        span: Span,
        /// The declaration comes from the expansion of an external macro.
        from_external_macro: bool,
        /// The declaration is in the crate being linted.
        is_local: bool,
    },
}

/// The type is reported for `convention`: it is a named local type not declared by an external
/// macro, whose name does not follow the convention.
pub open spec fn spec_violates(convention: TraitConvention, self_def: SelfDef) -> bool {
    match self_def {
        SelfDef::Named { name, from_external_macro, is_local, .. } => !from_external_macro
            && !convention.spec_matches(name@) && is_local,
        _ => false,
    }
}

/// Which `impl` blocks the naming lints report: `Plugin` maps to the suffix "Plugin" and
/// `SystemSet` to "Systems", and no other trait has a convention; a local named type not
/// declared by an external macro breaks the convention exactly when its name does not end in
/// the suffix; any other `Self` type never does.
pub proof fn lemma_naming_rule(c: TraitConvention, self_def: SelfDef, trait_path: Seq<Seq<char>>)
    ensures
        TraitConvention::spec_of_trait(BevyPath::Plugin.spec_segments()) == Some(
            TraitConvention::Plugin,
        ),
        TraitConvention::spec_of_trait(BevyPath::SystemSet.spec_segments()) == Some(
            TraitConvention::SystemSet,
        ),
        trait_path != BevyPath::Plugin.spec_segments() && trait_path
            != BevyPath::SystemSet.spec_segments() ==> TraitConvention::spec_of_trait(trait_path) is None,
        (self_def matches SelfDef::Named { name, from_external_macro: false, is_local: true, .. })
            ==> (spec_violates(c, self_def) <==> !is_suffix(
            match c {
                TraitConvention::Plugin => "Plugin"@,
                TraitConvention::SystemSet => "Systems"@,
            },
            self_def->name@,
        )),
        !(self_def matches SelfDef::Named { from_external_macro: false, is_local: true, .. })
            ==> !spec_violates(c, self_def),
{
    crate::paths::lemma_segments_distinct(BevyPath::Plugin, BevyPath::SystemSet);
}

/// A report of a naming lint: the convention broken, and the rename it suggests in place of
/// the type's name.
#[derive(Clone, Debug)]
pub struct NamingFinding {
    pub convention: TraitConvention,
    /// The span of the type's name in its declaration: where the lint points, and what the
    /// suggestion replaces.
    pub span: Span,
    /// The suggested name.
    pub suggestion: String,
    /// How far the suggestion can be applied: a rename may break other code, so it is never
    /// applied on its own.
    pub applicability: Applicability,
}

/// The report of a naming lint for `self_def` and `convention`, with `suggestion` as the
/// suggested name: at the name's span, with a rename that may be incorrect.
pub open spec fn spec_finding(
    f: NamingFinding,
    convention: TraitConvention,
    self_def: SelfDef,
    suggestion: Seq<char>,
) -> bool {
    self_def matches SelfDef::Named { span, .. } && f.convention == convention && f.span == span
        && f.suggestion@ == suggestion && f.applicability == Applicability::MaybeIncorrect
}

/// The name of a named type, and nothing for the other kinds.
pub open spec fn spec_self_name(self_def: SelfDef) -> Seq<char> {
    match self_def {
        SelfDef::Named { name, .. } => name@,
        _ => Seq::empty(),
    }
}

/// What the `unconventional_naming` lint reports for an `impl` block: where the block
/// implements `SystemSet` or `Plugin` for a local named type whose name lacks the trait's
/// suffix, the convention broken, at the type's name, with the conventional name as a
/// suggestion that may be incorrect.
pub fn unconventional_naming(trait_path: Option<&Vec<String>>, self_def: &SelfDef) -> (r: Option<
    NamingFinding,
>)
    ensures
        match trait_path {
            Some(p) => match TraitConvention::spec_of_trait(crate::ty::strings_view(p@)) {
                Some(c) => if spec_violates(c, *self_def) {
                    r matches Some(f) && spec_finding(
                        f,
                        c,
                        *self_def,
                        c.spec_name_suggestion(spec_self_name(*self_def)),
                    )
                } else {
                    r is None
                },
                None => r is None,
            },
            None => r is None,
        },
{
    let convention = match TraitConvention::try_from_impl(trait_path) {
        Some(c) => c,
        None => {
            return None;
        },
    };
    match self_def {
        SelfDef::Named { name, span, from_external_macro, is_local } => {
            if *from_external_macro {
                return None;
            }
            if convention.matches_conventional_name(name.as_str()) {
                return None;
            }
            if !*is_local {
                return None;
            }
            Some(
                NamingFinding {
                    convention,
                    span: *span,
                    suggestion: convention.name_suggestion(name.as_str()),
                    applicability: Applicability::MaybeIncorrect,
                },
            )
        },
        _ => None,
    }
}

/// What the `plugin_not_ending_in_plugin` lint reports for an `impl` block: where the block
/// implements `Plugin` for a local named type whose name does not end in "Plugin", a report at
/// the type's name suggesting the name with "Plugin" appended, a suggestion that may be
/// incorrect.
pub fn plugin_not_ending_in_plugin(trait_path: Option<&Vec<String>>, self_def: &SelfDef) -> (r: Option<
    NamingFinding,
>)
    ensures
        if trait_path matches Some(p) && crate::ty::strings_view(p@)
            == BevyPath::Plugin.spec_segments() && spec_violates(TraitConvention::Plugin, *self_def) {
            r matches Some(f) && spec_finding(
                f,
                TraitConvention::Plugin,
                *self_def,
                spec_self_name(*self_def) + "Plugin"@,
            )
        } else {
            r is None
        },
{
    match trait_path {
        Some(p) => {
            if !path_equals(p, BevyPath::Plugin) {
                return None;
            }
        },
        None => {
            return None;
        },
    }
    match self_def {
        SelfDef::Named { name, span, from_external_macro, is_local } => {
            if !*from_external_macro && !ends_with(name.as_str(), "Plugin") && *is_local {
                Some(
                    NamingFinding {
                        convention: TraitConvention::Plugin,
                        span: *span,
                        suggestion: plugin_rename(name.as_str()),
                        applicability: Applicability::MaybeIncorrect,
                    },
                )
            } else {
                None
            }
        },
        _ => None,
    }
}

/// The name suggested by the `plugin_not_ending_in_plugin` lint: "Plugin" appended.
pub fn plugin_rename(struct_name: &str) -> (r: String)
    ensures
        r@ == struct_name@ + "Plugin"@,
{
    let r = concat(&[struct_name, "Plugin"]);
    proof {
        reveal_with_fuel(crate::text::concat_all, 3);
    }
    r
}

/// "rename `{name}`"
pub fn rename_label(struct_name: &str) -> (r: String)
    ensures
        r@ == "rename `"@ + struct_name@ + "`"@,
{
    let r = concat(&["rename `", struct_name, "`"]);
    proof {
        reveal_with_fuel(crate::text::concat_all, 4);
    }
    r
}

} // verus!
