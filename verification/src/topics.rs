//! Names of the MQTT topics of a device.

use vstd::prelude::*;
use vstd::string::*;

verus! {

/// The topic `name` of the device `id`.
pub open spec fn topic(id: Seq<char>, name: Seq<char>) -> Seq<char> {
    id + "/"@ + name
}

fn topic_of(id: &str, name: &str) -> (r: String)
    ensures
        r@ == topic(id@, name@),
{
    let mut t = id.to_owned();
    t.append("/");
    t.append(name);
    t
}

/// The topic on which a device takes capture requests.
pub fn senddata_topic(id: &str) -> (r: String)
    ensures
        r@ == topic(id@, "senddata"@),
{
    topic_of(id, "senddata")
}

/// The topic on which a device takes commands.
pub fn cmd_topic(id: &str) -> (r: String)
    ensures
        r@ == topic(id@, "cmd"@),
{
    topic_of(id, "cmd")
}

/// The topic on which a device reports its status.
pub fn status_topic(id: &str) -> (r: String)
    ensures
        r@ == topic(id@, "status"@),
{
    topic_of(id, "status")
}

/// The topic on which a device announces itself.
pub fn hello_topic(id: &str) -> (r: String)
    ensures
        r@ == topic(id@, "hello"@),
{
    topic_of(id, "hello")
}

/// A device has four different topics.
pub proof fn law_topics_differ(id: Seq<char>)
    ensures
        topic(id, "senddata"@) != topic(id, "cmd"@),
        topic(id, "senddata"@) != topic(id, "status"@),
        topic(id, "senddata"@) != topic(id, "hello"@),
        topic(id, "cmd"@) != topic(id, "status"@),
        topic(id, "cmd"@) != topic(id, "hello"@),
        topic(id, "status"@) != topic(id, "hello"@),
{
    reveal_strlit("/");
    reveal_strlit("senddata");
    reveal_strlit("cmd");
    reveal_strlit("status");
    reveal_strlit("hello");
    assert(topic(id, "senddata"@).len() == id.len() + 9);
    assert(topic(id, "cmd"@).len() == id.len() + 4);
    assert(topic(id, "status"@).len() == id.len() + 7);
    assert(topic(id, "hello"@).len() == id.len() + 6);
}

} // verus!
