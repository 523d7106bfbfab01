//! Editor navigation state: tabs, sidebar sections, and the decisions taken
//! when the user moves between them.
use crate::platform::Platform;
use vstd::prelude::*;

verus! {

/// Top-level screen.
#[derive(Clone, Copy, Debug, PartialEq, Eq, Structural)]
pub enum AppTab {
    Library,
    Develop,
    Settings,
}

/// Tool shown in the Develop sidebar.
#[derive(Clone, Copy, Debug, PartialEq, Eq, Structural)]
pub enum SidebarTab {
    Adjustments,
    Crop,
    Masks,
    Inpainting,
    Export,
}

/// Section of the global adjustments panel.
#[derive(Clone, Copy, Debug, PartialEq, Eq, Structural)]
pub enum AdjustmentSection {
    Light,
    ToneCurve,
    Color,
    ColorGrading,
    Detail,
    Effects,
    ColorMixer,
    Optics,
    AdvancedRendering,
    Raw,
}

/// Section of the local-mask panel.
#[derive(Clone, Copy, Debug, PartialEq, Eq, Structural)]
pub enum MaskSection {
    Properties,
    Light,
    ToneCurve,
    Color,
    ColorGrading,
    Effects,
    ColorMixer,
}

/// Channel edited by the tone curve.
#[derive(Clone, Copy, Debug, PartialEq, Eq, Structural)]
pub enum ToneCurveTab {
    Rgb,
    Red,
    Green,
    Blue,
}

/// Tonal range edited by the colour-grading wheels.
#[derive(Clone, Copy, Debug, PartialEq, Eq, Structural)]
pub enum ColorGradeTab {
    Shadows,
    Midtones,
    Highlights,
    Global,
}

/// Hue band of the HSL colour mixer.
#[derive(Clone, Copy, Debug, PartialEq, Eq, Structural)]
pub enum HslMixerColor {
    Red,
    Orange,
    Yellow,
    Green,
    Aqua,
    Blue,
    Purple,
    Magenta,
}

impl Default for AppTab {
    fn default() -> (tab: Self)
        ensures
            tab == AppTab::Library,
    {
        AppTab::Library
    }
}

impl Default for SidebarTab {
    fn default() -> (tab: Self)
        ensures
            tab == SidebarTab::Adjustments,
    {
        SidebarTab::Adjustments
    }
}

impl Default for AdjustmentSection {
    fn default() -> (section: Self)
        ensures
            section == AdjustmentSection::Light,
    {
        AdjustmentSection::Light
    }
}

impl Default for MaskSection {
    fn default() -> (section: Self)
        ensures
            section == MaskSection::Properties,
    {
        MaskSection::Properties
    }
}

impl Default for ToneCurveTab {
    fn default() -> (tab: Self)
        ensures
            tab == ToneCurveTab::Rgb,
    {
        ToneCurveTab::Rgb
    }
}

impl Default for ColorGradeTab {
    fn default() -> (tab: Self)
        ensures
            tab == ColorGradeTab::Midtones,
    {
        ColorGradeTab::Midtones
    }
}

impl Default for HslMixerColor {
    fn default() -> (color: Self)
        ensures
            color == HslMixerColor::Red,
    {
        HslMixerColor::Red
    }
}

impl HslMixerColor {
    /// Position of the band in the mixer, from red (0) to magenta (7).
    pub open spec fn spec_index(self) -> nat {
        match self {
            HslMixerColor::Red => 0,
            HslMixerColor::Orange => 1,
            HslMixerColor::Yellow => 2,
            HslMixerColor::Green => 3,
            HslMixerColor::Aqua => 4,
            HslMixerColor::Blue => 5,
            HslMixerColor::Purple => 6,
            HslMixerColor::Magenta => 7,
        }
    }

    /// The bands in mixer order.
    pub fn all() -> (colors: [HslMixerColor; 8])
        ensures
            forall|i: int| 0 <= i < 8 ==> (#[trigger] colors[i]).spec_index() == i,
    {
        [
            HslMixerColor::Red,
            HslMixerColor::Orange,
            HslMixerColor::Yellow,
            HslMixerColor::Green,
            HslMixerColor::Aqua,
            HslMixerColor::Blue,
            HslMixerColor::Purple,
            HslMixerColor::Magenta,
        ]
    }

    pub fn index(self) -> (index: usize)
        ensures
            index == self.spec_index(),
    {
        match self {
            HslMixerColor::Red => 0,
            HslMixerColor::Orange => 1,
            HslMixerColor::Yellow => 2,
            HslMixerColor::Green => 3,
            HslMixerColor::Aqua => 4,
            HslMixerColor::Blue => 5,
            HslMixerColor::Purple => 6,
            HslMixerColor::Magenta => 7,
        }
    }
}

/// Distinct bands have distinct mixer positions.
pub proof fn lemma_hsl_index_is_injective(a: HslMixerColor, b: HslMixerColor)
    ensures
        a.spec_index() == b.spec_index() ==> a == b,
        a.spec_index() < 8,
{
}

/// Which AI model sessions may stay cached: the mask models while the Masks
/// tool of Develop is visible, the inpainting model while Inpainting is.
#[derive(Clone, Copy, Debug, PartialEq, Eq, Structural)]
pub struct ModelCachePolicy {
    pub mask_models: bool,
    pub inpainting_model: bool,
}

pub fn ai_model_cache_policy(tab: AppTab, sidebar: SidebarTab) -> (policy: ModelCachePolicy)
    ensures
        policy.mask_models == (tab == AppTab::Develop && sidebar == SidebarTab::Masks),
        policy.inpainting_model == (tab == AppTab::Develop && sidebar == SidebarTab::Inpainting),
{
    let develop_visible = tab == AppTab::Develop;
    ModelCachePolicy {
        mask_models: develop_visible && sidebar == SidebarTab::Masks,
        inpainting_model: develop_visible && sidebar == SidebarTab::Inpainting,
    }
}

/// What switching from one tab to another must do besides showing it.
#[derive(Clone, Copy, Debug, PartialEq, Eq, Structural)]
pub struct TabActivation {
    /// The target differs from the current tab; nothing else applies otherwise.
    pub changed: bool,
    /// Leaving Develop: stop showing the unedited original and forget a press-and-hold.
    pub stop_original_preview: bool,
    /// Leaving the Library: pause thumbnail decoding in favour of rendering.
    pub prepare_library_for_develop: bool,
    /// Leaving the Library on Android: close the folder drawer.
    pub close_folder_sidebar: bool,
    /// Entering Settings: measure the thumbnail cache again.
    pub remeasure_thumbnail_cache: bool,
    /// Entering the Library while it shows the cloud: reload it.
    pub refresh_cloud_library: bool,
    /// On Android, whether system Back now has an in-app destination.
    pub back_navigation_active: bool,
}

pub open spec fn spec_tab_activation(current: AppTab, target: AppTab, platform: Platform, library_is_cloud_view: bool) -> TabActivation {
    if current == target {
        TabActivation {
            changed: false,
            stop_original_preview: false,
            prepare_library_for_develop: false,
            close_folder_sidebar: false,
            remeasure_thumbnail_cache: false,
            refresh_cloud_library: false,
            back_navigation_active: false,
        }
    } else {
        TabActivation {
            changed: true,
            stop_original_preview: current == AppTab::Develop,
            prepare_library_for_develop: current == AppTab::Library,
            close_folder_sidebar: current == AppTab::Library && platform == Platform::Android,
            remeasure_thumbnail_cache: target == AppTab::Settings,
            refresh_cloud_library: target == AppTab::Library && library_is_cloud_view,
            back_navigation_active: target != AppTab::Library,
        }
    }
}

/// The side effects of activating `target` while `current` is shown.
pub fn tab_activation(current: AppTab, target: AppTab, platform: Platform, library_is_cloud_view: bool) -> (activation: TabActivation)
    ensures
        activation == spec_tab_activation(current, target, platform, library_is_cloud_view),
{
    if current == target {
        return TabActivation {
            changed: false,
            stop_original_preview: false,
            prepare_library_for_develop: false,
            close_folder_sidebar: false,
            remeasure_thumbnail_cache: false,
            refresh_cloud_library: false,
            back_navigation_active: false,
        };
    }
    TabActivation {
        changed: true,
        stop_original_preview: current == AppTab::Develop,
        prepare_library_for_develop: current == AppTab::Library,
        close_folder_sidebar: current == AppTab::Library && platform == Platform::Android,
        remeasure_thumbnail_cache: target == AppTab::Settings,
        refresh_cloud_library: target == AppTab::Library && library_is_cloud_view,
        back_navigation_active: target != AppTab::Library,
    }
}

/// Activating the tab that is already shown does nothing.
pub proof fn lemma_tab_activation_is_idempotent(tab: AppTab, platform: Platform, cloud: bool)
    ensures
        !spec_tab_activation(tab, tab, platform, cloud).changed,
        !spec_tab_activation(tab, tab, platform, cloud).stop_original_preview,
        !spec_tab_activation(tab, tab, platform, cloud).refresh_cloud_library,
{
}

/// How the app answers Android's system Back.
#[derive(Clone, Copy, Debug, PartialEq, Eq, Structural)]
pub enum BackAction {
    /// A modal foreground operation is running; Back is ignored.
    Ignore,
    /// Close the Library's folder drawer.
    CloseFolderSidebar,
    /// Clear the Library's selection.
    ClearSelection,
    /// Return to the Library.
    ShowLibrary,
}

pub open spec fn spec_back_action(foreground_task_active: bool, tab: AppTab, folder_sidebar_open: bool, has_selection: bool) -> BackAction {
    if foreground_task_active {
        BackAction::Ignore
    } else if tab == AppTab::Library && folder_sidebar_open {
        BackAction::CloseFolderSidebar
    } else if tab == AppTab::Library && has_selection {
        BackAction::ClearSelection
    } else {
        BackAction::ShowLibrary
    }
}

pub fn back_action(foreground_task_active: bool, tab: AppTab, folder_sidebar_open: bool, has_selection: bool) -> (action: BackAction)
    ensures
        action == spec_back_action(foreground_task_active, tab, folder_sidebar_open, has_selection),
{
    if foreground_task_active {
        BackAction::Ignore
    } else if tab == AppTab::Library && folder_sidebar_open {
        BackAction::CloseFolderSidebar
    } else if tab == AppTab::Library && has_selection {
        BackAction::ClearSelection
    } else {
        BackAction::ShowLibrary
    }
}

/// Whether system Back has an in-app destination: any screen but the
/// Library, or a Library with a selection or an open folder drawer.
pub fn back_navigation_active(tab: AppTab, has_selection: bool, folder_sidebar_open: bool) -> (active: bool)
    ensures
        active == (tab != AppTab::Library || has_selection || folder_sidebar_open),
{
    tab != AppTab::Library || has_selection || folder_sidebar_open
}

/// Back and the Back-destination flag agree: whenever Back has an in-app
/// destination and no modal task runs, Back does something other than
/// returning to the Library it already shows.
pub proof fn lemma_back_destination_agrees(tab: AppTab, has_selection: bool, folder_sidebar_open: bool)
    ensures
        (tab == AppTab::Library && !has_selection && !folder_sidebar_open) ==> spec_back_action(
            false,
            tab,
            folder_sidebar_open,
            has_selection,
        ) == BackAction::ShowLibrary,
        (tab == AppTab::Library && (has_selection || folder_sidebar_open)) ==> spec_back_action(
            false,
            tab,
            folder_sidebar_open,
            has_selection,
        ) != BackAction::ShowLibrary,
{
}

} // verus!
