//! HDMI hot-plug detection: reports when the connection state changes.

use vstd::prelude::*;

verus! {

/// A change of the HDMI connection.
#[derive(Debug, Clone, Copy, PartialEq, Eq, Structural)]
pub enum HdmiChange {
    /// A display was connected.
    Connected,
    /// The display was disconnected.
    Disconnected,
}

/// Remembers the last HDMI state seen.
pub struct HdmiMonitor {
    had_hdmi: Option<bool>,
}

impl View for HdmiMonitor {
    type V = Option<bool>;

    /// The last state seen, or none before the first update.
    closed spec fn view(&self) -> Option<bool> {
        self.had_hdmi
    }
}

/// One observation: the first only records the state; later ones report a
/// change of state.
pub open spec fn hdmi_step(had: Option<bool>, is_active: bool) -> (Option<bool>, Option<HdmiChange>) {
    match had {
        None => (Some(is_active), None),
        Some(h) => if h == is_active {
            (had, None)
        } else {
            (
                Some(is_active),
                Some(
                    if is_active {
                        HdmiChange::Connected
                    } else {
                        HdmiChange::Disconnected
                    },
                ),
            )
        },
    }
}

impl HdmiMonitor {
    /// A monitor that has seen nothing yet.
    pub fn new() -> (r: Self)
        ensures
            r@ is None,
    {
        HdmiMonitor { had_hdmi: None }
    }

    /// Records the current state; returns the change, if any.
    pub fn update(&mut self, is_active: bool) -> (r: Option<HdmiChange>)
        ensures
            (final(self)@, r) == hdmi_step(old(self)@, is_active),
    {
        match self.had_hdmi {
            None => {
                self.had_hdmi = Some(is_active);
                None
            },
            Some(had) => {
                if had == is_active {
                    None
                } else {
                    self.had_hdmi = Some(is_active);
                    Some(
                        if is_active {
                            HdmiChange::Connected
                        } else {
                            HdmiChange::Disconnected
                        },
                    )
                }
            },
        }
    }
}

impl Default for HdmiMonitor {
    fn default() -> (r: Self)
        ensures
            r@ is None,
    {
        HdmiMonitor::new()
    }
}

/// Reporting is edge-triggered: a repeated observation reports nothing,
/// and after any observation the monitor remembers it.
pub proof fn lemma_hdmi_reports_edges_only(had: Option<bool>, is_active: bool)
    ensures
        hdmi_step(had, is_active).0 == Some(is_active),
        hdmi_step(hdmi_step(had, is_active).0, is_active).1 is None,
        (hdmi_step(had, is_active).1 is Some) <==> (had is Some && had != Some(is_active)),
{
}

} // verus!
