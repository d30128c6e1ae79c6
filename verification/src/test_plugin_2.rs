//! The second sample plugin of the first plugin interface: when it is loaded
//! it sends an unknown event `bye` carrying the message `world`, and it
//! reports every message it receives. Printing is the host's; this module
//! says what is printed and what is sent.

use vstd::prelude::*;

use crate::kissa::{EventType, KissaResult, KissaSender, TestEventType};

verus! {

/// The second sample plugin.
pub struct Plugin;

impl Plugin {
    /// The plugin's name, `my-plugin`.
    pub fn name(&self) -> (n: &'static str)
        ensures
            n@ == "my-plugin"@,
    {
        "my-plugin"
    }

    /// The payload the plugin sends when it is loaded: the message `world`.
    pub fn load_payload(&self) -> (p: TestEventType<'static>)
        ensures
            p matches TestEventType::Message(m) && m@ == "world"@,
    {
        TestEventType::Message("world")
    }

    /// The event the plugin sends when it is loaded: the unknown event `bye`
    /// with `payload` (the host boxes `load_payload`).
    pub fn load_event<P>(&self, payload: P) -> (e: EventType<P>)
        ensures
            e matches EventType::Unknown(name, p) && name@ == "bye"@ && p == payload,
    {
        EventType::Unknown(String::from_str("bye"), payload)
    }

    /// What the plugin does when it is loaded: it sends `load_event` with
    /// `payload` through `sender` and reports that send's answer.
    pub fn send_load_event<P>(&self, sender: KissaSender<EventType<P>>, payload: P) -> (res:
        KissaResult<EventType<P>>)
        ensures
            exists|ev: EventType<P>, r: KissaResult<EventType<P>>|
                #![trigger call_ensures(KissaSender::<EventType<P>>::send, (&sender, ev), r)]
                (ev matches EventType::Unknown(name, p) && name@ == "bye"@ && p == payload)
                    && call_ensures(KissaSender::<EventType<P>>::send, (&sender, ev), r) && res
                    == r,
    {
        let ev = self.load_event(payload);
        let ghost sent = ev;
        let r = sender.send(ev);
        assert(call_ensures(KissaSender::<EventType<P>>::send, (&sender, sent), r));
        r
    }

    /// The line the plugin prints for `event`: `my-plugin ` followed by the
    /// text of a message event; nothing for any other event.
    pub fn report<P>(&self, event: &EventType<P>) -> (line: Option<String>)
        ensures
            match *event {
                EventType::Message(s) => line matches Some(l) && l@ == "my-plugin "@ + s@,
                _ => line is None,
            },
    {
        match event {
            EventType::Message(s) => {
                let mut l = String::from_str("my-plugin ");
                l.append(s.as_str());
                Some(l)
            },
            _ => None,
        }
    }
}

} // verus!
