//! Finding the peer: where the client looks for the server, in which order,
//! and under which name the server is announced on the local network.

use crate::text::{concat3, decimal_string, decimal_text, str_eq};
use vstd::prelude::*;
use vstd::string::*;

verus! {

/// The service type under which a server is announced on the local network.
pub const MDNS_SERVICE_TYPE: &'static str = "_wifikey2._udp.local.";

/// How often the client goes through its channels before it gives up.
pub const DISCOVERY_ROUNDS: usize = 2;

/// How long the button is held to ask for the setup mode, in ms.
pub const LONG_PRESS_MS: u32 = 5_000;

/// How often the button is looked at while it is held, in ms.
pub const PRESS_CHECK_INTERVAL: u32 = 50;

/// A channel over which the peer is looked for.
#[derive(Clone, Copy, Debug, PartialEq, Eq, Structural)]
pub enum Probe {
    /// The service announcement on the local network.
    Lan,
    /// The broker and the address that the outside world sees.
    Wan,
}

/// The probes of one round: the local network first, unless the client is
/// tethered to a phone.
pub open spec fn round_spec(tethering: bool) -> Seq<Probe> {
    if tethering {
        seq![Probe::Wan]
    } else {
        seq![Probe::Lan, Probe::Wan]
    }
}

/// The probes of the client, in their order.
pub open spec fn discovery_plan_spec(tethering: bool) -> Seq<Probe> {
    round_spec(tethering) + round_spec(tethering)
}

/// The probes of the client, in their order: `DISCOVERY_ROUNDS` rounds of
/// the local network and then the broker; a tethered client leaves the local
/// network out.
pub fn discovery_plan(tethering: bool) -> (plan: Vec<Probe>)
    ensures
        plan@ == discovery_plan_spec(tethering),
{
    let mut plan: Vec<Probe> = Vec::new();
    let mut round: usize = 0;
    while round < DISCOVERY_ROUNDS
        invariant
            round <= DISCOVERY_ROUNDS,
            round == 0 ==> plan@ == Seq::<Probe>::empty(),
            round == 1 ==> plan@ == round_spec(tethering),
            round == 2 ==> plan@ == discovery_plan_spec(tethering),
        decreases DISCOVERY_ROUNDS - round,
    {
        let ghost before = plan@;
        if !tethering {
            plan.push(Probe::Lan);
        }
        plan.push(Probe::Wan);
        assert(plan@ =~= before + round_spec(tethering));
        round += 1;
    }
    plan
}

/// The full name under which the server `server_name` is announced.
pub fn service_fullname(server_name: &str) -> (name: String)
    ensures
        name@ == server_name@ + "."@ + MDNS_SERVICE_TYPE@,
{
    concat3(server_name, ".", MDNS_SERVICE_TYPE)
}

/// Whether an announced service is that of the server `server_name`.
pub fn instance_matches(fullname: &str, server_name: &str) -> (b: bool)
    ensures
        b == (fullname@ == server_name@ + "."@ + MDNS_SERVICE_TYPE@),
{
    let wanted = service_fullname(server_name);
    str_eq(fullname, wanted.as_str())
}

/// The host name under which the process `pid` announces its server.
pub fn mdns_hostname(pid: u32) -> (name: String)
    ensures
        name@ == "wifikey2-"@ + decimal_text(pid as nat) + ".local."@,
{
    let number = decimal_string(pid as u64);
    concat3("wifikey2-", number.as_str(), ".local.")
}

/// What the watch over the button asks for.
#[derive(Clone, Copy, Debug, PartialEq, Eq, Structural)]
pub enum PressStep {
    /// Sleep `PRESS_CHECK_INTERVAL` ms and look at the button again.
    Wait,
    /// The watch has ended: whether the button was held for long enough.
    Done(bool),
}

/// The step of the watch after the button was held for `held` ms and is
/// now pressed or not, and the time it has been held then.
pub open spec fn press_spec(held: u32, duration: u32, pressed: bool) -> (u32, PressStep) {
    if pressed && held < duration {
        (
            if held > u32::MAX - PRESS_CHECK_INTERVAL {
                u32::MAX
            } else {
                (held + PRESS_CHECK_INTERVAL) as u32
            },
            PressStep::Wait,
        )
    } else {
        (held, PressStep::Done(held >= duration))
    }
}

/// Watches whether the button is held for a given time.
#[derive(Clone, Copy, Debug, PartialEq, Eq, Structural)]
pub struct LongPress {
    pub held: u32,
    pub duration: u32,
}

impl LongPress {
    /// A watch for a press of `duration` ms.
    pub fn new(duration: u32) -> (w: Self)
        ensures
            w == (LongPress { held: 0, duration }),
    {
        LongPress { held: 0, duration }
    }

    /// Takes a look at the button.
    pub fn check(&mut self, pressed: bool) -> (step: PressStep)
        ensures
            (final(self).held, step) == press_spec(old(self).held, old(self).duration, pressed),
            final(self).duration == old(self).duration,
    {
        if pressed && self.held < self.duration {
            self.held = self.held.saturating_add(PRESS_CHECK_INTERVAL);
            PressStep::Wait
        } else {
            PressStep::Done(self.held >= self.duration)
        }
    }
}

} // verus!
