//! The tray state holder: the one place that knows whether an icon is live,
//! what its tooltip says and which menu it carries.
//!
//! The holder keeps a model of the operating system's icon and tells the
//! caller what to do to the real one. Creating an icon takes two steps:
//! [`show_tray`] plans it, the caller asks the operating system, and
//! [`TrayHolder::complete_show`] records how that went.

use vstd::prelude::*;
use crate::icon::{bytes_of, embedded_raster, installed_raster, load, loaded, outcome};
use crate::icon::{IconAsset, IconError, Raster};
use crate::menu::{menu_entries, MenuAction};
use crate::text::{tooltip, Labels};

verus! {

/// Why the tray could not be shown or hidden.
#[derive(Clone, Copy, Debug, PartialEq, Eq, Structural)]
pub enum TrayError {
    /// The icon loader produced no icon.
    Icon(IconError),
    /// The operating system refused to create the icon.
    Platform,
}

/// The live icon as the holder knows it.
#[derive(Debug)]
pub struct TrayHandle {
    tooltip: String,
    entries: Vec<MenuAction>,
}

/// The live icon as mathematics.
pub struct HandleView {
    /// The tooltip's text.
    pub tooltip: Seq<char>,
    /// The menu's entries, top to bottom.
    pub entries: Seq<MenuAction>,
}

/// Holds the one live icon, or nothing.
#[derive(Debug)]
pub struct TrayHolder {
    handle: Option<TrayHandle>,
}

impl View for TrayHolder {
    type V = Option<HandleView>;

    closed spec fn view(&self) -> Option<HandleView> {
        match self.handle {
            Some(handle) => Some(HandleView { tooltip: handle.tooltip@, entries: handle.entries@ }),
            None => None,
        }
    }
}

/// What an icon is created with.
#[derive(Debug)]
pub struct TrayRequest {
    /// The raster to show.
    pub icon: IconAsset,
    /// The first tooltip.
    pub tooltip: String,
    /// The menu's entries, top to bottom.
    pub entries: Vec<MenuAction>,
    /// Whether the system may recolour the icon to suit its theme.
    pub as_template: bool,
}

/// What [`show_tray`] asks of the caller.
#[derive(Debug)]
pub enum ShowPlan {
    /// An icon is live already: there is nothing to do.
    AlreadyShown,
    /// Create an icon as the request says, then report with
    /// [`TrayHolder::complete_show`].
    Create(TrayRequest),
}

/// One thing to do to the operating system's icon.
#[derive(Clone, Copy, Debug, PartialEq, Eq, Structural)]
pub enum TrayCommand {
    /// Take the menu off the icon.
    ClearMenu,
    /// Take the tooltip off the icon.
    ClearTooltip,
    /// Let go of the icon.
    Release,
}

/// The handle that a successful creation leaves: the tooltip for no
/// session and the two-entry menu.
pub open spec fn fresh_handle(labels: Labels) -> HandleView {
    HandleView { tooltip: labels.tooltip_text(0, Seq::empty()), entries: menu_entries() }
}

/// Whether `plan` is what showing asks for, given whether an icon is live and
/// what the icon loader gives. A live icon is left alone, before any icon
/// is looked at; without one, a loader's failure is the error, and an icon is
/// requested with the tooltip for no session, the two entries and
/// recolouring allowed.
pub open spec fn is_show_plan(
    live: bool,
    labels: Labels,
    icon: Result<Raster, IconError>,
    plan: Result<ShowPlan, TrayError>,
) -> bool {
    if live {
        plan matches Ok(ShowPlan::AlreadyShown)
    } else {
        match icon {
            Err(e) => plan matches Err(err) && err == TrayError::Icon(e),
            Ok(raster) => {
                &&& plan matches Ok(ShowPlan::Create(request))
                &&& request.icon@ == raster
                &&& request.tooltip@ == fresh_handle(labels).tooltip
                &&& request.entries@ == fresh_handle(labels).entries
                &&& request.as_template
            },
        }
    }
}

/// The holder after a tooltip update: a live icon carries the new text and
/// keeps its menu; without one nothing changes.
pub open spec fn with_tooltip(holder: Option<HandleView>, text: Seq<char>) -> Option<HandleView> {
    match holder {
        Some(handle) => Some(HandleView { tooltip: text, entries: handle.entries }),
        None => None,
    }
}

/// The text handed back by a tooltip update: the new text where an icon is
/// live, nothing without one.
pub open spec fn applied_tooltip(holder: Option<HandleView>, text: Seq<char>) -> Option<Seq<char>> {
    match holder {
        Some(_) => Some(text),
        None => None,
    }
}

/// An optional text as mathematics.
pub open spec fn text_of(text: Option<String>) -> Option<Seq<char>> {
    match text {
        Some(t) => Some(t@),
        None => None,
    }
}

/// The tooltip of the live icon, if there is one.
pub open spec fn tooltip_of(holder: Option<HandleView>) -> Option<Seq<char>> {
    match holder {
        Some(handle) => Some(handle.tooltip),
        None => None,
    }
}

/// The menu entries of the live icon, top to bottom; none without an icon.
pub open spec fn entries_of(holder: Option<HandleView>) -> Seq<MenuAction> {
    match holder {
        Some(handle) => handle.entries,
        None => Seq::empty(),
    }
}

/// The holder after a creation was reported: the requested icon is live
/// where the operating system created it; otherwise nothing changes.
pub open spec fn after_show(
    holder: Option<HandleView>,
    tooltip: Seq<char>,
    entries: Seq<MenuAction>,
    created: bool,
) -> Option<HandleView> {
    if created {
        Some(HandleView { tooltip, entries })
    } else {
        holder
    }
}

/// The commands that hide an icon: none where none is live; otherwise the
/// menu and the tooltip are cleared before the icon is let go.
pub open spec fn hide_commands(live: bool) -> Seq<TrayCommand> {
    if live {
        seq![TrayCommand::ClearMenu, TrayCommand::ClearTooltip, TrayCommand::Release]
    } else {
        Seq::empty()
    }
}

impl TrayHolder {
    /// A holder without an icon.
    pub fn new() -> (holder: TrayHolder)
        ensures
            holder@ is None,
    {
        TrayHolder { handle: None }
    }

    /// Tells whether an icon is live.
    pub fn is_live(&self) -> (live: bool)
        ensures
            live == (self@ is Some),
    {
        self.handle.is_some()
    }

    /// The live icon's tooltip.
    pub fn current_tooltip(&self) -> (text: Option<String>)
        ensures
            text_of(text) == tooltip_of(self@),
    {
        match &self.handle {
            Some(handle) => Some(handle.tooltip.clone()),
            None => None,
        }
    }

    /// The live icon's menu entries, top to bottom; none without an icon.
    pub fn current_entries(&self) -> (entries: Vec<MenuAction>)
        ensures
            entries@ == entries_of(self@),
    {
        match &self.handle {
            Some(handle) => handle.entries.clone(),
            None => Vec::new(),
        }
    }

    /// Plans the creation of an icon from what the icon loader gave.
    pub fn plan_show(&self, labels: &Labels, icon: Result<IconAsset, IconError>) -> (plan: Result<
        ShowPlan,
        TrayError,
    >)
        ensures
            is_show_plan(self@ is Some, *labels, outcome(icon), plan),
    {
        if self.handle.is_some() {
            return Ok(ShowPlan::AlreadyShown);
        }
        match icon {
            Err(e) => Err(TrayError::Icon(e)),
            Ok(icon) => {
                let text = tooltip(labels, 0, "");
                let entries = vec![MenuAction::Open, MenuAction::Quit];
                proof {
                    reveal_strlit("");
                    assert(""@ =~= Seq::<char>::empty());
                    assert(entries@ =~= menu_entries());
                }
                Ok(ShowPlan::Create(TrayRequest { icon, tooltip: text, entries, as_template: true }))
            },
        }
    }

    /// Records how the creation of the requested icon went. Where the
    /// operating system created it (`created`), it becomes the one live icon,
    /// in place of any that was held, with the request's tooltip and menu.
    /// Where it refused, the holder is unchanged and the error is `Platform`.
    pub fn complete_show(&mut self, request: &TrayRequest, created: bool) -> (r: Result<
        (),
        TrayError,
    >)
        ensures
            final(self)@ == after_show(old(self)@, request.tooltip@, request.entries@, created),
            created ==> r is Ok,
            !created ==> r == Err::<(), TrayError>(TrayError::Platform),
    {
        if created {
            self.handle = Some(
                TrayHandle { tooltip: request.tooltip.clone(), entries: request.entries.clone() },
            );
            Ok(())
        } else {
            Err(TrayError::Platform)
        }
    }

    /// Sets the tooltip for `count` active sessions, where `sessions` is the
    /// localized sessions phrase for that count. The new text is recorded for
    /// the live icon and handed back for the caller to put on the real one.
    /// Without a live icon nothing happens.
    pub fn update_tooltip(&mut self, labels: &Labels, count: usize, sessions: &str) -> (applied:
        Option<String>)
        ensures
            final(self)@ == with_tooltip(old(self)@, labels.tooltip_text(count as nat, sessions@)),
            text_of(applied) == applied_tooltip(
                old(self)@,
                labels.tooltip_text(count as nat, sessions@),
            ),
    {
        match self.handle.take() {
            Some(handle) => {
                let text = tooltip(labels, count, sessions);
                self.handle = Some(TrayHandle { tooltip: text.clone(), entries: handle.entries });
                Some(text)
            },
            None => None,
        }
    }
}

/// Starting the tray with the service is switched off: this does nothing,
/// and the icon appears only through [`show_tray`].
pub fn start_tray() {
}

/// Plans showing the icon. `installed` holds the bytes of the icon file
/// installed beside the executable, if there is one, and `embedded` the
/// image built into the program. With an icon live already nothing is
/// loaded and nothing is to be done.
pub fn show_tray(
    holder: &TrayHolder,
    labels: &Labels,
    installed: Option<&[u8]>,
    embedded: &[u8],
) -> (plan: Result<ShowPlan, TrayError>)
    ensures
        is_show_plan(
            holder@ is Some,
            *labels,
            loaded(installed_raster(bytes_of(installed)), embedded_raster(embedded@)),
            plan,
        ),
{
    if holder.is_live() {
        return Ok(ShowPlan::AlreadyShown);
    }
    holder.plan_show(labels, load(installed, embedded))
}

/// Hides the icon. The holder is empty afterwards, whatever it held, and
/// the result is always `Ok`: it lists what to do to the real icon, in
/// order, and the caller goes through the whole list even where a step
/// fails.
pub fn hide_tray(holder: &mut TrayHolder) -> (r: Result<Vec<TrayCommand>, TrayError>)
    ensures
        final(holder)@ is None,
        r matches Ok(commands) && commands@ == hide_commands(old(holder)@ is Some),
{
    let mut commands: Vec<TrayCommand> = Vec::new();
    if holder.handle.is_some() {
        commands.push(TrayCommand::ClearMenu);
        commands.push(TrayCommand::ClearTooltip);
        commands.push(TrayCommand::Release);
    }
    holder.handle = None;
    assert(commands@ =~= hide_commands(old(holder)@ is Some));
    Ok(commands)
}

/// Hiding again changes nothing. `hidden` is a holder as hiding leaves it,
/// or one that never showed an icon: hiding it asks nothing of the caller,
/// while hiding a live icon asks for the menu and the tooltip to be cleared
/// before the icon is let go.
pub proof fn law_hide_is_idempotent(hidden: Option<HandleView>, live: Option<HandleView>)
    requires
        hidden is None,
        live is Some,
    ensures
        hide_commands(hidden is Some) == Seq::<TrayCommand>::empty(),
        hide_commands(live is Some) == seq![
            TrayCommand::ClearMenu,
            TrayCommand::ClearTooltip,
            TrayCommand::Release,
        ],
{
}

} // verus!
