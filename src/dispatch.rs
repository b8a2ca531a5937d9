use vstd::prelude::*;
use vstd::string::StringExecFns;

use crate::device::{DecodeError, DeviceModel, UpdatePatch};
use crate::paint::{blue, blue_of, green, green_of, red, red_of};
use crate::registry::{applied, outcome_of, Registry, Transition};
use crate::report::{bool_text, report_text};

verus! {

/// The name under which this service is known to its host.
pub const MODULE: &'static str = "devinfo";

/// The request that asks a device to report its system information again.
pub const SYSINFO_REQUEST: &'static str = "send plugin sysinfo report myself";

/// The help text of the supported actions.
pub const HELP: &'static str = "
action plugin devinfo update {json}
    Update devinfo database. (usually from mqtt)

action plugin devinfo refresh all
    To ask all devices in devinfo to send sysinfo.
";

/// Which action an invocation asks for.
#[derive(Clone, Copy, Debug, PartialEq, Eq, Structural)]
pub enum ActionKind {
    /// `update`, with a patch as payload.
    Update,
    /// `refresh` with the payload `all`.
    RefreshAll,
    /// Anything else: nothing to do.
    Ignored,
}

pub open spec fn action_kind_of(action: Seq<char>, data: Seq<char>) -> ActionKind {
    if action == "update"@ {
        ActionKind::Update
    } else if action == "refresh"@ && data == "all"@ {
        ActionKind::RefreshAll
    } else {
        ActionKind::Ignored
    }
}

/// Tells which action an invocation asks for.
pub fn classify_action(action: &str, data: &str) -> (k: ActionKind)
    ensures
        k == action_kind_of(action@, data@),
{
    let a = String::from_str(action);
    let d = String::from_str(data);
    if a == String::from_str("update") {
        ActionKind::Update
    } else if a == String::from_str("refresh") && d == String::from_str("all") {
        ActionKind::RefreshAll
    } else {
        ActionKind::Ignored
    }
}

/// A side effect to hand to the outbound channel.
#[derive(Debug)]
pub enum Command {
    /// Record a log line (still to be encoded).
    Log { message: String },
    /// Ask the device behind `topic` to report again.
    Publish { topic: String },
}

/// The topic on which a device listens for requests.
pub open spec fn topic_of(name: Seq<char>) -> Seq<char> {
    "tln/"@ + name + "/send"@
}

/// The log line that announces a change of a device's onboard flag.
pub open spec fn transition_message(name: Seq<char>, t: Transition) -> Seq<char> {
    let change = bool_text(t.prev) + " -> "@ + bool_text(t.curr);
    "["@ + blue_of(MODULE@) + "] "@ + name + ": "@ + (if t.curr {
        green_of(change)
    } else {
        red_of(change)
    })
}

/// The outbound command that records an encoded log line.
pub open spec fn log_command_of(encoded: Seq<char>) -> Seq<char> {
    "record log '"@ + encoded + "'"@
}

/// The outbound command that publishes an encoded request on a topic.
pub open spec fn publish_command_of(topic: Seq<char>, encoded: Seq<char>) -> Seq<char> {
    "publish report topic='"@ + topic + "' payload='"@ + encoded + "'"@
}

pub fn topic(name: &str) -> (r: String)
    ensures
        r@ == topic_of(name@),
{
    let mut s = String::from_str("tln/");
    s.append(name);
    s.append("/send");
    s
}

fn bool_str(b: bool) -> (r: &'static str)
    ensures
        r@ == bool_text(b),
{
    if b {
        "true"
    } else {
        "false"
    }
}

/// Writes the log line for an onboard change of the named device.
pub fn transition_log(name: &str, t: Transition) -> (r: String)
    ensures
        r@ == transition_message(name@, t),
{
    let mut change = String::from_str(bool_str(t.prev));
    change.append(" -> ");
    change.append(bool_str(t.curr));
    let colored = if t.curr {
        green(change.as_str())
    } else {
        red(change.as_str())
    };
    let mut s = String::from_str("[");
    let m = blue(MODULE);
    s.append(m.as_str());
    s.append("] ");
    s.append(name);
    s.append(": ");
    s.append(colored.as_str());
    s
}

/// Frames an encoded log line as an outbound command.
pub fn log_command(encoded: &str) -> (r: String)
    ensures
        r@ == log_command_of(encoded@),
{
    let mut s = String::from_str("record log '");
    s.append(encoded);
    s.append("'");
    s
}

/// Frames an encoded request to a topic as an outbound command.
pub fn publish_command(topic: &str, encoded: &str) -> (r: String)
    ensures
        r@ == publish_command_of(topic@, encoded@),
{
    let mut s = String::from_str("publish report topic='");
    s.append(topic);
    s.append("' payload='");
    s.append(encoded);
    s.append("'");
    s
}

/// The device-status service: a registry and the actions on it.
pub struct Plugin {
    registry: Registry,
}

/// Whether `cs` is what an update of `name` with the given outcome emits:
/// one log line when the onboard flag changed, nothing otherwise.
pub open spec fn update_commands(cs: Seq<Command>, name: Seq<char>, t: Option<Transition>) -> bool {
    match t {
        Some(t) => cs.len() == 1 && (cs[0] matches Command::Log { message } && message@
            == transition_message(name, t)),
        None => cs.len() == 0,
    }
}

/// Whether `cs` asks each device of `devs`, in order, to report again.
pub open spec fn refresh_commands(cs: Seq<Command>, devs: Seq<DeviceModel>) -> bool {
    cs.len() == devs.len() && forall|i: int|
        0 <= i < cs.len() ==> (#[trigger] cs[i] matches Command::Publish { topic } && topic@
            == topic_of(devs[i].name))
}

impl View for Plugin {
    type V = Seq<DeviceModel>;

    closed spec fn view(&self) -> Seq<DeviceModel> {
        self.registry@
    }
}

impl Plugin {
    pub closed spec fn wf(&self) -> bool {
        self.registry.wf()
    }

    pub fn new() -> (r: Plugin)
        ensures
            r.wf(),
            r@ == Seq::<DeviceModel>::empty(),
    {
        Plugin { registry: Registry::new() }
    }

    pub fn name(&self) -> (r: &'static str)
        ensures
            r@ == MODULE@,
    {
        MODULE
    }

    /// The help text of the supported actions.
    pub fn show(&self) -> (r: String)
        ensures
            r@ == HELP@,
    {
        String::from_str(HELP)
    }

    /// The registry, for reading.
    pub fn registry(&self) -> (r: &Registry)
        requires
            self.wf(),
        ensures
            r@ == self@,
            r.wf(),
    {
        &self.registry
    }

    /// Applies a decoded update at time `now`. A payload that failed to
    /// decode is handed back and changes nothing.
    pub fn update(&mut self, decoded: Result<UpdatePatch, DecodeError>, now: u64) -> (r: Result<
        Vec<Command>,
        DecodeError,
    >)
        requires
            old(self).wf(),
        ensures
            final(self).wf(),
            match decoded {
                Err(e) => r matches Err(e2) && e2 == e && final(self)@ == old(self)@,
                Ok(p) => r matches Ok(cs) && final(self)@ == applied(old(self)@, p@, now)
                    && update_commands(cs@, p@.name, outcome_of(old(self)@, p@).transition),
            },
    {
        match decoded {
            Err(e) => Err(e),
            Ok(p) => {
                let name = p.name.clone();
                let out = self.registry.apply_update(p, now);
                let mut cs: Vec<Command> = Vec::new();
                match out.transition {
                    Some(t) => {
                        let message = transition_log(name.as_str(), t);
                        cs.push(Command::Log { message });
                    },
                    None => {},
                }
                Ok(cs)
            },
        }
    }

    /// The requests that a `refresh` with payload `data` sends: one per known
    /// device, in registration order, when `data` is `all`; none otherwise.
    pub fn refresh(&self, data: &str) -> (r: Vec<Command>)
        ensures
            data@ == "all"@ ==> refresh_commands(r@, self@),
            data@ != "all"@ ==> r@.len() == 0,
    {
        let mut cs: Vec<Command> = Vec::new();
        if String::from_str(data) != String::from_str("all") {
            return cs;
        }
        let mut i: usize = 0;
        while i < self.registry.len()
            invariant
                i <= self@.len(),
                self@ == self.registry@,
                refresh_commands(cs@, self@.take(i as int)),
            decreases self@.len() - i,
        {
            let d = self.registry.get(i);
            let t = topic(d.name.as_str());
            cs.push(Command::Publish { topic: t });
            i = i + 1;
        }
        assert(self@.take(i as int) =~= self@);
        cs
    }

    /// The status report at time `now`.
    pub fn status(&self, now: u64) -> (r: String)
        ensures
            r@ == report_text(self@, now),
    {
        self.registry.render(now)
    }
}

} // verus!
