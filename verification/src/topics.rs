//! The MQTT topics of a device.
use vstd::prelude::*;
use vstd::string::*;
use crate::text::{law_split_first, law_split_pieces, opt_view, split, split_on, views};
use crate::types::{Topics, TopicsView};

verus! {

/// The topic of a device for one purpose.
pub open spec fn topic_of(id: Seq<char>, purpose: Seq<char>) -> Seq<char> {
    "solar/"@ + id + "/"@ + purpose
}

/// The topics of a device.
pub open spec fn topics_of(id: Seq<char>) -> TopicsView {
    TopicsView {
        cmd: topic_of(id, "cmd"@),
        status: topic_of(id, "status"@),
        ota: topic_of(id, "ota"@),
    }
}

/// The device that a topic belongs to: the second of three components or more.
pub open spec fn device_of_topic(topic: Seq<char>) -> Option<Seq<char>> {
    if split_on(topic, '/').len() >= 3 {
        Some(split_on(topic, '/')[1])
    } else {
        None
    }
}

/// The topic of a device for one purpose.
pub fn topic(id: &str, purpose: &str) -> (r: String)
    ensures
        r@ == topic_of(id@, purpose@),
{
    "solar/".to_owned().concat(id).concat("/").concat(purpose)
}

/// The topics of a device.
pub fn topics(id: &str) -> (r: Topics)
    ensures
        r@ == topics_of(id@),
{
    Topics { cmd: topic(id, "cmd"), status: topic(id, "status"), ota: topic(id, "ota") }
}

/// The device that a topic belongs to.
pub fn device_id(topic: &str) -> (r: Option<String>)
    ensures
        opt_view(r) == device_of_topic(topic@),
{
    let parts: Vec<String> = split(topic, '/');
    if parts.len() >= 3 {
        assert(views(parts@)[1] == parts@[1]@);
        Some(parts[1].clone())
    } else {
        None
    }
}

/// The device of a topic is the one that the topic was made for, unless its id holds a slash.
pub proof fn law_topic_names_its_device(id: Seq<char>, purpose: Seq<char>)
    requires
        !id.contains('/'),
    ensures
        device_of_topic(topic_of(id, purpose)) == Some(id),
{
    reveal_strlit("solar/");
    reveal_strlit("/");
    let solar = "solar/"@.take(5);
    let slash = seq!['/'];
    assert("solar/"@ =~= solar + slash);
    assert("/"@ =~= slash);
    assert(topic_of(id, purpose) =~= solar + slash + (id + slash + purpose));
    assert(!solar.contains('/')) by {
        assert(forall|k: int| 0 <= k < solar.len() ==> solar[k] == "solar/"@[k]);
    }
    law_split_first(solar, id + slash + purpose, '/');
    law_split_first(id, purpose, '/');
    law_split_pieces(purpose, '/');
}

} // verus!
