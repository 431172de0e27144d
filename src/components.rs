use vstd::prelude::*;

verus! {

/// Look of a badge.
#[derive(Copy, Clone, Debug, PartialEq, Eq, Structural, Default)]
#[non_exhaustive]
pub enum BadgeVariant {
    #[default]
    Primary,
    Secondary,
    Destructive,
    Outline,
}

impl BadgeVariant {
    /// The style classes of the variant.
    pub open spec fn class_spec(self) -> Seq<char> {
        match self {
            BadgeVariant::Primary => "border-white/20 bg-indigo-600 text-white"@,
            BadgeVariant::Secondary => "bg-white text-indigo-600"@,
            BadgeVariant::Destructive => "border-white/20 bg-red-500 text-white"@,
            BadgeVariant::Outline => "border-slate-500 bg-transparent text-slate-500"@,
        }
    }

    /// The style classes of the variant.
    pub fn class(&self) -> (r: &'static str)
        ensures
            r@ == self.class_spec(),
    {
        match self {
            BadgeVariant::Primary => "border-white/20 bg-indigo-600 text-white",
            BadgeVariant::Secondary => "bg-white text-indigo-600",
            BadgeVariant::Destructive => "border-white/20 bg-red-500 text-white",
            BadgeVariant::Outline => "border-slate-500 bg-transparent text-slate-500",
        }
    }
}

/// Look of a button.
#[derive(Copy, Clone, Debug, PartialEq, Eq, Structural, Default)]
#[non_exhaustive]
pub enum ButtonVariant {
    #[default]
    Primary,
    Secondary,
    Destructive,
    Outline,
    Plain,
}

impl ButtonVariant {
    /// The style classes of the variant.
    pub open spec fn class_spec(self) -> Seq<char> {
        match self {
            ButtonVariant::Primary => "bg-orange-500 text-white shadow-[6px_6px_0px_rgba(154,52,18,0.5)] hover:brightness-110 hover:shadow-[10px_10px_0px_rgba(154,52,18,0.55)]"@,
            ButtonVariant::Secondary => "bg-indigo-600 text-white shadow-[6px_6px_0px_rgba(30,27,75,0.5)] hover:brightness-110 hover:shadow-[10px_10px_0px_rgba(30,27,75,0.55)]"@,
            ButtonVariant::Destructive => "bg-red-600 text-white hover:bg-red-700"@,
            ButtonVariant::Outline => "border border-indigo-600 bg-transparent text-indigo-600 hover:bg-indigo-600/5"@,
            ButtonVariant::Plain => "bg-transparent text-indigo-600 shadow-none hover:-translate-y-0.5 hover:bg-indigo-600/10"@,
        }
    }

    /// The style classes of the variant.
    pub fn class(&self) -> (r: &'static str)
        ensures
            r@ == self.class_spec(),
    {
        match self {
            ButtonVariant::Primary => "bg-orange-500 text-white shadow-[6px_6px_0px_rgba(154,52,18,0.5)] hover:brightness-110 hover:shadow-[10px_10px_0px_rgba(154,52,18,0.55)]",
            ButtonVariant::Secondary => "bg-indigo-600 text-white shadow-[6px_6px_0px_rgba(30,27,75,0.5)] hover:brightness-110 hover:shadow-[10px_10px_0px_rgba(30,27,75,0.55)]",
            ButtonVariant::Destructive => "bg-red-600 text-white hover:bg-red-700",
            ButtonVariant::Outline => "border border-indigo-600 bg-transparent text-indigo-600 hover:bg-indigo-600/5",
            ButtonVariant::Plain => "bg-transparent text-indigo-600 shadow-none hover:-translate-y-0.5 hover:bg-indigo-600/10",
        }
    }
}

/// Look of a tab strip.
#[derive(Copy, Clone, Debug, PartialEq, Eq, Structural, Default)]
pub enum TabsVariant {
    #[default]
    Default,
    Plain,
}

impl TabsVariant {
    /// The class name that marks the variant on the tabs' root.
    pub open spec fn root_class_spec(self) -> Seq<char> {
        match self {
            TabsVariant::Default => "tabs-default"@,
            TabsVariant::Plain => "tabs-ghost"@,
        }
    }

    /// The class name that marks the variant on the tabs' root.
    pub fn root_class(self) -> (r: &'static str)
        ensures
            r@ == self.root_class_spec(),
    {
        match self {
            TabsVariant::Default => "tabs-default",
            TabsVariant::Plain => "tabs-ghost",
        }
    }
}

} // verus!
