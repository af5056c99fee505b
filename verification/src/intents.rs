//! Input intents: what touch and button classifiers ask the app to do.

use vstd::prelude::*;

verus! {

/// An intent produced by the touch/button classifiers.
#[derive(Debug, Clone, Copy, PartialEq, Eq, Structural)]
pub enum UiIntent {
    NextPage,
    PreviousPage,
    Select,
    SettingsBackToOverview,
    SettingsNextDetail,
    SettingsPreviousDetail,
    BackHome,
    AssistantHold,
    PowerMenu,
    BootReserved,
}

impl UiIntent {
    /// Monitor log line for the intent.
    pub fn log_label(self) -> (r: &'static str)
        ensures
            r@ == (match self {
                UiIntent::NextPage => "intent: NextPage"@,
                UiIntent::PreviousPage => "intent: PreviousPage"@,
                UiIntent::Select => "intent: Select"@,
                UiIntent::SettingsBackToOverview => "intent: SettingsBackToOverview"@,
                UiIntent::SettingsNextDetail => "intent: SettingsNextDetail"@,
                UiIntent::SettingsPreviousDetail => "intent: SettingsPreviousDetail"@,
                UiIntent::BackHome => "intent: BackHome"@,
                UiIntent::AssistantHold => "intent: AssistantHold"@,
                UiIntent::PowerMenu => "intent: PowerMenu"@,
                UiIntent::BootReserved => "intent: BootReserved"@,
            }),
    {
        match self {
            UiIntent::NextPage => "intent: NextPage",
            UiIntent::PreviousPage => "intent: PreviousPage",
            UiIntent::Select => "intent: Select",
            UiIntent::SettingsBackToOverview => "intent: SettingsBackToOverview",
            UiIntent::SettingsNextDetail => "intent: SettingsNextDetail",
            UiIntent::SettingsPreviousDetail => "intent: SettingsPreviousDetail",
            UiIntent::BackHome => "intent: BackHome",
            UiIntent::AssistantHold => "intent: AssistantHold",
            UiIntent::PowerMenu => "intent: PowerMenu",
            UiIntent::BootReserved => "intent: BootReserved",
        }
    }

    /// Whether the intent changes the visible page.
    pub fn is_navigation(self) -> (r: bool)
        ensures
            r == (self == UiIntent::NextPage || self == UiIntent::PreviousPage || self
                == UiIntent::BackHome),
    {
        match self {
            UiIntent::NextPage | UiIntent::PreviousPage | UiIntent::BackHome => true,
            _ => false,
        }
    }
}

} // verus!
