//! The rich-presence descriptor and its builders. Every field is optional;
//! an absent field is left out of the JSON text, never written as `null`.

use vstd::prelude::*;
use crate::json::{
    array, json_quoted, member, object, opt_num_member, opt_str_member, ObjectWriter,
};

verus! {

/// Start and end of the activity, in seconds since the Unix epoch.
#[derive(Clone, Debug, Default, PartialEq, Eq, Hash)]
pub struct Timestamps {
    pub start: Option<u64>,
    pub end: Option<u64>,
}

/// Images and their hover texts.
#[derive(Clone, Debug, Default, PartialEq, Eq, Hash)]
pub struct Assets {
    pub large_image: Option<String>,
    pub large_text: Option<String>,
    pub small_image: Option<String>,
    pub small_text: Option<String>,
}

/// The party that a user may join.
#[derive(Clone, Debug, Default, PartialEq, Eq, Hash)]
pub struct Party {
    pub id: Option<String>,
}

/// A button shown under the activity: a label and the URL it opens.
#[derive(Clone, Debug, Default, PartialEq, Eq, Hash)]
pub struct ActivityButton {
    pub label: String,
    pub url: String,
}

/// The rich-presence descriptor.
#[derive(Clone, Debug, Default, PartialEq, Eq, Hash)]
pub struct Activity {
    pub state: Option<String>,
    pub details: Option<String>,
    pub timestamps: Option<Timestamps>,
    pub assets: Option<Assets>,
    pub party: Option<Party>,
    pub buttons: Option<Vec<ActivityButton>>,
}

/// The member for an optional nested value, already written as JSON.
pub open spec fn opt_member(key: Seq<char>, v: Option<Seq<char>>) -> Seq<Seq<char>> {
    match v {
        Some(t) => seq![member(key, t)],
        None => Seq::empty(),
    }
}

pub open spec fn timestamps_json(t: Timestamps) -> Seq<char> {
    object(opt_num_member("start"@, t.start) + opt_num_member("end"@, t.end))
}

pub open spec fn assets_json(a: Assets) -> Seq<char> {
    object(
        opt_str_member("large_image"@, a.large_image) + opt_str_member("large_text"@, a.large_text)
            + opt_str_member("small_image"@, a.small_image) + opt_str_member(
            "small_text"@,
            a.small_text,
        ),
    )
}

pub open spec fn party_json(p: Party) -> Seq<char> {
    object(opt_str_member("id"@, p.id))
}

pub open spec fn button_json(b: ActivityButton) -> Seq<char> {
    object(seq![member("label"@, json_quoted(b.label@)), member("url"@, json_quoted(b.url@))])
}

pub open spec fn buttons_json(bs: Seq<ActivityButton>) -> Seq<char> {
    array(Seq::new(bs.len(), |i: int| button_json(bs[i])))
}

pub open spec fn opt_timestamps_json(o: Option<Timestamps>) -> Option<Seq<char>> {
    match o {
        Some(t) => Some(timestamps_json(t)),
        None => None,
    }
}

pub open spec fn opt_assets_json(o: Option<Assets>) -> Option<Seq<char>> {
    match o {
        Some(a) => Some(assets_json(a)),
        None => None,
    }
}

pub open spec fn opt_party_json(o: Option<Party>) -> Option<Seq<char>> {
    match o {
        Some(p) => Some(party_json(p)),
        None => None,
    }
}

pub open spec fn opt_buttons_json(o: Option<Vec<ActivityButton>>) -> Option<Seq<char>> {
    match o {
        Some(bs) => Some(buttons_json(bs@)),
        None => None,
    }
}

/// The JSON text of an activity: the present fields only, in declaration order.
pub open spec fn activity_json(a: Activity) -> Seq<char> {
    object(
        opt_str_member("state"@, a.state) + opt_str_member("details"@, a.details)
            + opt_member("timestamps"@, opt_timestamps_json(a.timestamps))
            + opt_member("assets"@, opt_assets_json(a.assets))
            + opt_member("party"@, opt_party_json(a.party))
            + opt_member("buttons"@, opt_buttons_json(a.buttons)),
    )
}

fn opt_nested(w: &mut ObjectWriter, key: &str, v: Option<String>)
    requires
        old(w).wf('{'),
    ensures
        final(w).wf('{'),
        final(w).members() == old(w).members() + opt_member(
            key@,
            match v {
                Some(t) => Some(t@),
                None => None,
            },
        ),
{
    match v {
        Some(t) => {
            w.member(key, t.as_str());
        },
        None => {
            assert(old(w).members() + opt_member(key@, None) =~= old(w).members());
        },
    }
}

impl Timestamps {
    pub fn new() -> (r: Timestamps)
        ensures
            r.start is None,
            r.end is None,
    {
        Timestamps { start: None, end: None }
    }

    pub fn start(self, value: Option<u64>) -> (r: Timestamps)
        ensures
            r.start == value,
            r.end == self.end,
    {
        Timestamps { start: value, ..self }
    }

    pub fn end(self, value: Option<u64>) -> (r: Timestamps)
        ensures
            r.end == value,
            r.start == self.start,
    {
        Timestamps { end: value, ..self }
    }

    /// The JSON text of these timestamps.
    pub fn to_json(&self) -> (r: String)
        ensures
            r@ == timestamps_json(*self),
    {
        let mut w = ObjectWriter::new_object();
        w.opt_num("start", self.start);
        w.opt_num("end", self.end);
        assert(w.members() =~= opt_num_member("start"@, self.start) + opt_num_member("end"@, self.end));
        w.finish_object()
    }
}

impl Assets {
    pub fn new() -> (r: Assets)
        ensures
            r.large_image is None,
            r.large_text is None,
            r.small_image is None,
            r.small_text is None,
    {
        Assets { large_image: None, large_text: None, small_image: None, small_text: None }
    }

    pub fn large_image(self, value: Option<String>) -> (r: Assets)
        ensures
            r == (Assets { large_image: value, ..self }),
    {
        Assets { large_image: value, ..self }
    }

    pub fn large_text(self, value: Option<String>) -> (r: Assets)
        ensures
            r == (Assets { large_text: value, ..self }),
    {
        Assets { large_text: value, ..self }
    }

    pub fn small_image(self, value: Option<String>) -> (r: Assets)
        ensures
            r == (Assets { small_image: value, ..self }),
    {
        Assets { small_image: value, ..self }
    }

    pub fn small_text(self, value: Option<String>) -> (r: Assets)
        ensures
            r == (Assets { small_text: value, ..self }),
    {
        Assets { small_text: value, ..self }
    }

    /// The JSON text of these assets.
    pub fn to_json(&self) -> (r: String)
        ensures
            r@ == assets_json(*self),
    {
        let mut w = ObjectWriter::new_object();
        w.opt_str("large_image", &self.large_image);
        w.opt_str("large_text", &self.large_text);
        w.opt_str("small_image", &self.small_image);
        w.opt_str("small_text", &self.small_text);
        assert(w.members() =~= opt_str_member("large_image"@, self.large_image) + opt_str_member(
            "large_text"@,
            self.large_text,
        ) + opt_str_member("small_image"@, self.small_image) + opt_str_member(
            "small_text"@,
            self.small_text,
        ));
        w.finish_object()
    }
}

impl Party {
    pub fn new() -> (r: Party)
        ensures
            r.id is None,
    {
        Party { id: None }
    }

    pub fn id(self, value: Option<String>) -> (r: Party)
        ensures
            r.id == value,
    {
        Party { id: value }
    }

    /// The JSON text of this party.
    pub fn to_json(&self) -> (r: String)
        ensures
            r@ == party_json(*self),
    {
        let mut w = ObjectWriter::new_object();
        w.opt_str("id", &self.id);
        assert(w.members() =~= opt_str_member("id"@, self.id));
        w.finish_object()
    }
}

impl ActivityButton {
    pub fn new(label: String, url: String) -> (r: ActivityButton)
        ensures
            r.label == label,
            r.url == url,
    {
        ActivityButton { label, url }
    }

    /// The JSON text of this button.
    pub fn to_json(&self) -> (r: String)
        ensures
            r@ == button_json(*self),
    {
        let mut w = ObjectWriter::new_object();
        let label = crate::json::quote(self.label.as_str());
        w.member("label", label.as_str());
        let url = crate::json::quote(self.url.as_str());
        w.member("url", url.as_str());
        assert(w.members() =~= seq![member("label"@, json_quoted(self.label@)), member("url"@, json_quoted(self.url@))]);
        w.finish_object()
    }
}

fn buttons_to_json(bs: &Vec<ActivityButton>) -> (r: String)
    ensures
        r@ == buttons_json(bs@),
{
    let mut w = ObjectWriter::new_array();
    let mut i: usize = 0;
    while i < bs.len()
        invariant
            0 <= i <= bs@.len(),
            w.wf('['),
            w.members() == Seq::new(i as nat, |k: int| button_json(bs@[k])),
        decreases bs@.len() - i,
    {
        let t = bs[i].to_json();
        w.element(t.as_str());
        i = i + 1;
        assert(w.members() =~= Seq::new(i as nat, |k: int| button_json(bs@[k])));
    }
    w.finish_array()
}

impl Activity {
    /// An activity with every field absent.
    pub fn new() -> (r: Activity)
        ensures
            r.state is None,
            r.details is None,
            r.timestamps is None,
            r.assets is None,
            r.party is None,
            r.buttons is None,
    {
        Activity { state: None, details: None, timestamps: None, assets: None, party: None, buttons: None }
    }

    pub fn state(self, value: Option<String>) -> (r: Activity)
        ensures
            r == (Activity { state: value, ..self }),
    {
        Activity { state: value, ..self }
    }

    pub fn details(self, value: Option<String>) -> (r: Activity)
        ensures
            r == (Activity { details: value, ..self }),
    {
        Activity { details: value, ..self }
    }

    pub fn buttons(self, value: Option<Vec<ActivityButton>>) -> (r: Activity)
        ensures
            r == (Activity { buttons: value, ..self }),
    {
        Activity { buttons: value, ..self }
    }

    /// Sets the timestamps to what `f` makes of empty ones.
    pub fn timestamps<F>(self, f: F) -> (r: Activity)
        where F: FnOnce(Timestamps) -> Timestamps,
        requires
            f.requires(((Timestamps { start: None, end: None }),)),
        ensures
            r.timestamps is Some,
            f.ensures(((Timestamps { start: None, end: None }),), r.timestamps->Some_0),
            r == (Activity { timestamps: r.timestamps, ..self }),
    {
        let t = f(Timestamps::new());
        Activity { timestamps: Some(t), ..self }
    }

    /// Sets the assets to what `f` makes of empty ones.
    pub fn assets<F>(self, f: F) -> (r: Activity)
        where F: FnOnce(Assets) -> Assets,
        requires
            f.requires(((Assets { large_image: None, large_text: None, small_image: None, small_text: None }),)),
        ensures
            r.assets is Some,
            f.ensures(
                ((Assets { large_image: None, large_text: None, small_image: None, small_text: None }),),
                r.assets->Some_0,
            ),
            r == (Activity { assets: r.assets, ..self }),
    {
        let a = f(Assets::new());
        Activity { assets: Some(a), ..self }
    }

    /// Sets the party to what `f` makes of an empty one.
    pub fn party<F>(self, f: F) -> (r: Activity)
        where F: FnOnce(Party) -> Party,
        requires
            f.requires(((Party { id: None }),)),
        ensures
            r.party is Some,
            f.ensures(((Party { id: None }),), r.party->Some_0),
            r == (Activity { party: r.party, ..self }),
    {
        let p = f(Party::new());
        Activity { party: Some(p), ..self }
    }

    /// The JSON text of this activity.
    pub fn to_json(&self) -> (r: String)
        ensures
            r@ == activity_json(*self),
    {
        let mut w = ObjectWriter::new_object();
        w.opt_str("state", &self.state);
        w.opt_str("details", &self.details);
        let t = match &self.timestamps {
            Some(t) => Some(t.to_json()),
            None => None,
        };
        opt_nested(&mut w, "timestamps", t);
        let a = match &self.assets {
            Some(a) => Some(a.to_json()),
            None => None,
        };
        opt_nested(&mut w, "assets", a);
        let p = match &self.party {
            Some(p) => Some(p.to_json()),
            None => None,
        };
        opt_nested(&mut w, "party", p);
        let b = match &self.buttons {
            Some(bs) => Some(buttons_to_json(bs)),
            None => None,
        };
        opt_nested(&mut w, "buttons", b);
        assert(w.members() =~= opt_str_member("state"@, self.state) + opt_str_member("details"@, self.details)
            + opt_member("timestamps"@, opt_timestamps_json(self.timestamps))
            + opt_member("assets"@, opt_assets_json(self.assets))
            + opt_member("party"@, opt_party_json(self.party))
            + opt_member("buttons"@, opt_buttons_json(self.buttons)));
        w.finish_object()
    }
}

} // verus!
