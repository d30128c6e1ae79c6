//! The first sample plugin of the first plugin interface: it greets when it
//! is loaded, reports the name and payload of unknown events, and answers
//! every event with a request to stop with code 10. Printing is the host's;
//! this module says what is printed and what is sent.

use vstd::prelude::*;

use crate::kissa::{EventType, KissaResult, KissaSender, TestEventType};

verus! {

/// The first sample plugin.
pub struct TestPlugin;

impl TestPlugin {
    /// The plugin's name, `test_plugin`.
    pub fn name(&self) -> (n: &'static str)
        ensures
            n@ == "test_plugin"@,
    {
        "test_plugin"
    }

    /// The event the plugin sends when it is loaded: the message
    /// `hello world`.
    pub fn load_event<P>(&self) -> (e: EventType<P>)
        ensures
            e matches EventType::Message(m) && m@ == "hello world"@,
    {
        EventType::Message(String::from_str("hello world"))
    }

    /// The lines the plugin prints for `event`. `payload` is the payload of
    /// an unknown event read as a `TestEventType`, `None` where it is not
    /// one. For an unknown event: its name, then the payload's message or
    /// `没有数据？` ("no data?"); for any other event, nothing.
    pub fn report<P>(&self, event: &EventType<P>, payload: Option<&TestEventType>) -> (lines: Vec<
        String,
    >)
        ensures
            match *event {
                EventType::Unknown(name, _) => {
                    &&& lines@.len() == 2
                    &&& lines@[0]@ == name@
                    &&& match payload {
                        Some(TestEventType::Message(b)) => lines@[1]@ == b@,
                        None => lines@[1]@ == "没有数据？"@,
                    }
                },
                _ => lines@.len() == 0,
            },
    {
        let mut lines: Vec<String> = Vec::new();
        match event {
            EventType::Unknown(name, _) => {
                lines.push(name.clone());
                match payload {
                    Some(TestEventType::Message(b)) => lines.push(String::from_str(b)),
                    None => lines.push(String::from_str("没有数据？")),
                }
            },
            _ => {},
        }
        lines
    }

    /// The event the plugin answers every event with: a request to stop with
    /// code 10.
    pub fn answer<P>(&self) -> (e: EventType<P>)
        ensures
            e matches EventType::QuitKissa(code) && code == 10,
    {
        EventType::QuitKissa(10)
    }

    /// What the plugin does when it is loaded: it sends `load_event` through
    /// `sender` and reports that send's answer.
    pub fn send_load_event<P>(&self, sender: KissaSender<EventType<P>>) -> (res: KissaResult<
        EventType<P>,
    >)
        ensures
            exists|ev: EventType<P>, r: KissaResult<EventType<P>>|
                #![trigger call_ensures(KissaSender::<EventType<P>>::send, (&sender, ev), r)]
                (ev matches EventType::Message(m) && m@ == "hello world"@) && call_ensures(
                    KissaSender::<EventType<P>>::send,
                    (&sender, ev),
                    r,
                ) && res == r,
    {
        let ev = self.load_event();
        let ghost sent = ev;
        let r = sender.send(ev);
        assert(call_ensures(KissaSender::<EventType<P>>::send, (&sender, sent), r));
        r
    }

    /// What the plugin sends after reporting an event: `answer`, through
    /// `sender`; it reports that send's answer.
    pub fn send_answer<P>(&self, sender: KissaSender<EventType<P>>) -> (res: KissaResult<
        EventType<P>,
    >)
        ensures
            exists|ev: EventType<P>, r: KissaResult<EventType<P>>|
                #![trigger call_ensures(KissaSender::<EventType<P>>::send, (&sender, ev), r)]
                (ev matches EventType::QuitKissa(code) && code == 10) && call_ensures(
                    KissaSender::<EventType<P>>::send,
                    (&sender, ev),
                    r,
                ) && res == r,
    {
        let ev = self.answer();
        let ghost sent = ev;
        let r = sender.send(ev);
        assert(call_ensures(KissaSender::<EventType<P>>::send, (&sender, sent), r));
        r
    }
}

} // verus!
