use vstd::prelude::*;
use vstd::string::StringExecFns;

use crate::evaluation_types::DynamicReturnable;
use crate::specs_adapter::SpecsSource;
use crate::text::{chars_to_string, str_eq_chars, str_to_chars};

verus! {

/// The kinds of SDK events a listener can subscribe to.
#[derive(Debug, Clone, Copy, PartialEq, Eq, Structural, Hash)]
pub enum SdkEventCode {
    Unknown,
    All,
    GateEvaluated,
    DynamicConfigEvaluated,
    ExperimentEvaluated,
    LayerEvaluated,
    SpecsUpdated,
}

/// The number of an event kind: its position in the list of kinds.
pub open spec fn spec_event_code_raw(c: SdkEventCode) -> u8 {
    match c {
        SdkEventCode::Unknown => 0,
        SdkEventCode::All => 1,
        SdkEventCode::GateEvaluated => 2,
        SdkEventCode::DynamicConfigEvaluated => 3,
        SdkEventCode::ExperimentEvaluated => 4,
        SdkEventCode::LayerEvaluated => 5,
        SdkEventCode::SpecsUpdated => 6,
    }
}

/// The event kind a name stands for (`*` for every event); `Unknown` for any other name.
pub open spec fn spec_event_code_from_name(name: Seq<char>) -> SdkEventCode {
    if name == "*"@ {
        SdkEventCode::All
    } else if name == "gate_evaluated"@ {
        SdkEventCode::GateEvaluated
    } else if name == "dynamic_config_evaluated"@ {
        SdkEventCode::DynamicConfigEvaluated
    } else if name == "experiment_evaluated"@ {
        SdkEventCode::ExperimentEvaluated
    } else if name == "layer_evaluated"@ {
        SdkEventCode::LayerEvaluated
    } else if name == "specs_updated"@ {
        SdkEventCode::SpecsUpdated
    } else {
        SdkEventCode::Unknown
    }
}

impl SdkEventCode {
    /// The event kind a name stands for.
    pub fn from_name(name: &str) -> (r: SdkEventCode)
        ensures
            r == spec_event_code_from_name(name@),
    {
        let n = str_to_chars(name);
        if str_eq_chars("*", &n) {
            SdkEventCode::All
        } else if str_eq_chars("gate_evaluated", &n) {
            SdkEventCode::GateEvaluated
        } else if str_eq_chars("dynamic_config_evaluated", &n) {
            SdkEventCode::DynamicConfigEvaluated
        } else if str_eq_chars("experiment_evaluated", &n) {
            SdkEventCode::ExperimentEvaluated
        } else if str_eq_chars("layer_evaluated", &n) {
            SdkEventCode::LayerEvaluated
        } else if str_eq_chars("specs_updated", &n) {
            SdkEventCode::SpecsUpdated
        } else {
            SdkEventCode::Unknown
        }
    }

    /// The number of the event kind.
    pub fn as_raw(&self) -> (r: u8)
        ensures
            r == spec_event_code_raw(*self),
    {
        match self {
            SdkEventCode::Unknown => 0,
            SdkEventCode::All => 1,
            SdkEventCode::GateEvaluated => 2,
            SdkEventCode::DynamicConfigEvaluated => 3,
            SdkEventCode::ExperimentEvaluated => 4,
            SdkEventCode::LayerEvaluated => 5,
            SdkEventCode::SpecsUpdated => 6,
        }
    }
}

/// An SDK event with what it reports; the values borrowed from the caller.
pub enum SdkEvent<'a> {
    SpecsUpdated { source: &'a SpecsSource, source_api: &'a Option<String> },
    GateEvaluated { gate_name: &'a str, rule_id: &'a str, value: bool, reason: &'a str },
    DynamicConfigEvaluated {
        config_name: &'a str,
        reason: &'a str,
        rule_id: Option<&'a str>,
        value: Option<&'a DynamicReturnable>,
    },
    ExperimentEvaluated {
        experiment_name: &'a str,
        reason: &'a str,
        rule_id: Option<&'a str>,
        value: Option<&'a DynamicReturnable>,
        group_name: Option<&'a str>,
    },
    LayerEvaluated { layer_name: &'a str, reason: &'a str, rule_id: Option<&'a str> },
}

/// The kind of an event.
pub open spec fn spec_event_kind(e: SdkEvent) -> SdkEventCode {
    match e {
        SdkEvent::GateEvaluated { .. } => SdkEventCode::GateEvaluated,
        SdkEvent::DynamicConfigEvaluated { .. } => SdkEventCode::DynamicConfigEvaluated,
        SdkEvent::ExperimentEvaluated { .. } => SdkEventCode::ExperimentEvaluated,
        SdkEvent::LayerEvaluated { .. } => SdkEventCode::LayerEvaluated,
        SdkEvent::SpecsUpdated { .. } => SdkEventCode::SpecsUpdated,
    }
}

/// The name of an event kind, as listeners subscribe to it; `unknown` for the unknown kind.
pub open spec fn spec_event_code_name(c: SdkEventCode) -> Seq<char> {
    match c {
        SdkEventCode::All => "*"@,
        SdkEventCode::GateEvaluated => "gate_evaluated"@,
        SdkEventCode::DynamicConfigEvaluated => "dynamic_config_evaluated"@,
        SdkEventCode::ExperimentEvaluated => "experiment_evaluated"@,
        SdkEventCode::LayerEvaluated => "layer_evaluated"@,
        SdkEventCode::SpecsUpdated => "specs_updated"@,
        SdkEventCode::Unknown => "unknown"@,
    }
}

impl<'a> SdkEvent<'a> {
    /// The kind of the event.
    pub fn get_code(&self) -> (r: SdkEventCode)
        ensures
            r == spec_event_kind(*self),
    {
        match self {
            SdkEvent::GateEvaluated { .. } => SdkEventCode::GateEvaluated,
            SdkEvent::DynamicConfigEvaluated { .. } => SdkEventCode::DynamicConfigEvaluated,
            SdkEvent::ExperimentEvaluated { .. } => SdkEventCode::ExperimentEvaluated,
            SdkEvent::LayerEvaluated { .. } => SdkEventCode::LayerEvaluated,
            SdkEvent::SpecsUpdated { .. } => SdkEventCode::SpecsUpdated,
        }
    }

    /// The name of the event's kind.
    pub fn get_name(&self) -> (r: &'static str)
        ensures
            r@ == spec_event_code_name(spec_event_kind(*self)),
    {
        match self.get_code() {
            SdkEventCode::All => "*",
            SdkEventCode::GateEvaluated => "gate_evaluated",
            SdkEventCode::DynamicConfigEvaluated => "dynamic_config_evaluated",
            SdkEventCode::ExperimentEvaluated => "experiment_evaluated",
            SdkEventCode::LayerEvaluated => "layer_evaluated",
            SdkEventCode::SpecsUpdated => "specs_updated",
            SdkEventCode::Unknown => "unknown",
        }
    }
}

/// The name of every event kind but the unknown one stands for that kind.
pub proof fn lemma_event_name_round_trip(c: SdkEventCode)
    requires
        c != SdkEventCode::Unknown,
    ensures
        spec_event_code_from_name(spec_event_code_name(c)) == c,
{
    reveal_strlit("*");
    reveal_strlit("gate_evaluated");
    reveal_strlit("dynamic_config_evaluated");
    reveal_strlit("experiment_evaluated");
    reveal_strlit("layer_evaluated");
    reveal_strlit("specs_updated");
    assert("*"@.len() == 1);
    assert("gate_evaluated"@.len() == 14);
    assert("dynamic_config_evaluated"@.len() == 24);
    assert("experiment_evaluated"@.len() == 20);
    assert("layer_evaluated"@.len() == 15);
    assert("specs_updated"@.len() == 13);
}

/// Identifies one subscription: a unique value and the event name it was made for.
#[derive(Clone)]
pub struct SubscriptionID {
    pub value: String,
    pub event: String,
}

/// `uuid::Uuid::new_v4().to_string()`: a random identifier. Nothing is claimed of the
/// value, which is drawn at random.
#[verifier::external_body]
fn random_uuid() -> String {
    uuid::Uuid::new_v4().to_string()
}

/// The text has no `@`.
pub open spec fn no_at(s: Seq<char>) -> bool {
    forall|i: int| 0 <= i < s.len() ==> s[i] != '@'
}

/// The encoded form of a subscription: value, `@`, event name.
pub open spec fn spec_encode(value: Seq<char>, event: Seq<char>) -> Seq<char> {
    value + seq!['@'] + event
}

/// Number of `@` characters in a text.
pub open spec fn at_count(s: Seq<char>) -> nat
    decreases s.len(),
{
    if s.len() == 0 {
        0
    } else {
        at_count(s.drop_last()) + if s.last() == '@' {
            1nat
        } else {
            0nat
        }
    }
}

/// The two parts of a text around its only `@`, when it has exactly one.
pub open spec fn spec_decode(s: Seq<char>) -> Option<(Seq<char>, Seq<char>)> {
    if at_count(s) == 1 {
        let i = choose|i: int| 0 <= i < s.len() && s[i] == '@';
        Some((s.take(i), s.skip(i + 1)))
    } else {
        None
    }
}

/// A text without `@` counts none.
proof fn lemma_no_at_count(s: Seq<char>)
    requires
        no_at(s),
    ensures
        at_count(s) == 0,
    decreases s.len(),
{
    if s.len() > 0 {
        lemma_no_at_count(s.drop_last());
    }
}

/// Counting `@` adds up over a concatenation.
proof fn lemma_at_count_concat(a: Seq<char>, b: Seq<char>)
    ensures
        at_count(a + b) == at_count(a) + at_count(b),
    decreases b.len(),
{
    if b.len() == 0 {
        assert(a + b =~= a);
    } else {
        lemma_at_count_concat(a, b.drop_last());
        assert((a + b).drop_last() =~= a + b.drop_last());
    }
}

/// With exactly one `@`, it is the only position holding one.
proof fn lemma_single_at(s: Seq<char>, i: int)
    requires
        0 <= i < s.len(),
        s[i] == '@',
        no_at(s.take(i)),
        no_at(s.skip(i + 1)),
    ensures
        forall|j: int| 0 <= j < s.len() && s[j] == '@' ==> j == i,
{
    assert forall|j: int| 0 <= j < s.len() && s[j] == '@' implies j == i by {
        if j < i {
            assert(s.take(i)[j] == s[j]);
        } else if j > i {
            assert(s.skip(i + 1)[j - i - 1] == s[j]);
        }
    }
}

impl SubscriptionID {
    /// A fresh subscription for an event name, with a random value.
    pub fn new(event: &str) -> (r: Self)
        ensures
            r.event@ == event@,
    {
        SubscriptionID { value: random_uuid(), event: String::from_str(event) }
    }

    /// The subscription handed out for an event name that is not known.
    pub fn error() -> (r: Self)
        ensures
            r.value@ == "ERROR"@,
            r.event@ == "ERROR"@,
    {
        SubscriptionID { value: String::from_str("ERROR"), event: String::from_str("ERROR") }
    }

    /// The subscription an encoded text names: the parts around its `@`, when it has
    /// exactly one.
    pub fn decode(s: &str) -> (r: Option<Self>)
        ensures
            r is Some <==> spec_decode(s@) is Some,
            r matches Some(id) ==> spec_decode(s@) == Some((id.value@, id.event@)),
    {
        let chars = str_to_chars(s);
        let mut count: usize = 0;
        let mut pos: usize = 0;
        let mut i: usize = 0;
        while i < chars.len()
            invariant
                i <= chars.len(),
                count <= i,
                count == at_count(chars@.take(i as int)),
                count >= 1 ==> pos < i && chars@[pos as int] == '@' && no_at(chars@.take(pos as int)),
                count == 1 ==> no_at(chars@.subrange(pos + 1, i as int)),
                count == 0 ==> no_at(chars@.take(i as int)),
            decreases chars.len() - i,
        {
            assert(chars@.take(i + 1).drop_last() =~= chars@.take(i as int));
            if chars[i] == '@' {
                if count == 0 {
                    pos = i;
                    assert(chars@.subrange(pos + 1, i + 1) =~= Seq::<char>::empty());
                }
                count = count + 1;
            } else {
                if count == 1 {
                    assert(chars@.subrange(pos + 1, i + 1) =~= chars@.subrange(pos + 1, i as int).push(
                        chars@[i as int],
                    ));
                }
            }
            i = i + 1;
        }
        assert(chars@.take(chars.len() as int) =~= chars@);
        if count != 1 {
            return None;
        }
        let mut value: Vec<char> = Vec::new();
        let mut event: Vec<char> = Vec::new();
        let mut k: usize = 0;
        while k < chars.len()
            invariant
                k <= chars.len(),
                pos < chars.len(),
                value@ == chars@.take(if k < pos { k as int } else { pos as int }),
                event@ == (if k <= pos + 1 { Seq::<char>::empty() } else { chars@.subrange(pos + 1, k as int) }),
            decreases chars.len() - k,
        {
            if k < pos {
                value.push(chars[k]);
                assert(chars@.take(k + 1) =~= chars@.take(k as int).push(chars@[k as int]));
            } else if k > pos {
                event.push(chars[k]);
                if k == pos + 1 {
                    assert(chars@.subrange(pos + 1, k + 1) =~= seq![chars@[k as int]]);
                } else {
                    assert(chars@.subrange(pos + 1, k + 1) =~= chars@.subrange(pos + 1, k as int).push(
                        chars@[k as int],
                    ));
                }
            }
            k = k + 1;
        }
        proof {
            assert(chars@.skip(pos + 1) =~= chars@.subrange(pos + 1, chars.len() as int));
            if pos + 1 == chars.len() {
                assert(chars@.skip(pos + 1) =~= Seq::<char>::empty());
            }
            lemma_single_at(chars@, pos as int);
            let j = choose|j: int| 0 <= j < chars@.len() && chars@[j] == '@';
            assert(j == pos);
        }
        Some(SubscriptionID { value: chars_to_string(&value), event: chars_to_string(&event) })
    }

    /// The subscription as text: value, `@`, event name.
    pub fn encode(self) -> (r: String)
        ensures
            r@ == spec_encode(self.value@, self.event@),
    {
        let mut out = str_to_chars(self.value.as_str());
        out.push('@');
        let e = str_to_chars(self.event.as_str());
        let mut i: usize = 0;
        let ghost start = out@;
        while i < e.len()
            invariant
                i <= e.len(),
                out@ == start + e@.take(i as int),
            decreases e.len() - i,
        {
            out.push(e[i]);
            assert(e@.take(i + 1) =~= e@.take(i as int).push(e@[i as int]));
            i = i + 1;
        }
        assert(e@.take(e.len() as int) =~= e@);
        chars_to_string(&out)
    }
}

/// Decoding an encoded subscription gives it back, when neither its value nor its event name
/// holds an `@`.
pub proof fn lemma_decode_encode(value: Seq<char>, event: Seq<char>)
    requires
        no_at(value),
        no_at(event),
    ensures
        spec_decode(spec_encode(value, event)) == Some((value, event)),
{
    let s = spec_encode(value, event);
    let i = value.len() as int;
    lemma_no_at_count(value);
    lemma_no_at_count(event);
    lemma_at_count_concat(value, seq!['@']);
    lemma_at_count_concat(value + seq!['@'], event);
    assert(at_count(seq!['@']) == 1) by {
        assert(seq!['@'].drop_last() =~= Seq::<char>::empty());
        assert(at_count(Seq::<char>::empty()) == 0);
        assert(seq!['@'].last() == '@');
    }
    assert(s.take(i) =~= value);
    assert(s.skip(i + 1) =~= event);
    assert(s[i] == '@');
    lemma_single_at(s, i);
}

/// A text that counts no `@` holds none.
proof fn lemma_zero_count_no_at(s: Seq<char>)
    requires
        at_count(s) == 0,
    ensures
        no_at(s),
    decreases s.len(),
{
    if s.len() > 0 {
        lemma_zero_count_no_at(s.drop_last());
        assert forall|i: int| 0 <= i < s.len() implies s[i] != '@' by {
            if i < s.len() - 1 {
                assert(s.drop_last()[i] == s[i]);
            }
        }
    }
}

/// A text decodes to a subscription exactly when it holds one `@`; then the value and the
/// event name decoded hold no `@`, and encoding them gives the text back.
pub proof fn lemma_encode_decode(s: Seq<char>)
    ensures
        spec_decode(s) is Some <==> at_count(s) == 1,
        spec_decode(s) matches Some((v, e)) ==> no_at(v) && no_at(e) && spec_encode(v, e) == s,
{
    if at_count(s) == 1 {
        if no_at(s) {
            lemma_no_at_count(s);
        }
        let i = choose|i: int| 0 <= i < s.len() && s[i] == '@';
        let v = s.take(i);
        let e = s.skip(i + 1);
        assert(s =~= v + seq!['@'] + e);
        lemma_at_count_concat(v, seq!['@']);
        lemma_at_count_concat(v + seq!['@'], e);
        assert(at_count(seq!['@']) == 1) by {
            assert(seq!['@'].drop_last() =~= Seq::<char>::empty());
            assert(seq!['@'].last() == '@');
        }
        lemma_zero_count_no_at(v);
        lemma_zero_count_no_at(e);
    }
}

/// A subscribed callback with the value of its subscription.
pub struct Listener<C> {
    pub sub_id_value: String,
    pub callback: C,
}

/// Number of event kinds.
pub const EVENT_CODE_COUNT: usize = 7;

/// Calls subscribed callbacks when SDK events happen; listeners are kept per event kind.
pub struct SdkEventEmitter<C> {
    listeners: Vec<Vec<Listener<C>>>,
}

/// The subscription values of a list of listeners.
pub open spec fn listener_values<C>(ls: Seq<Listener<C>>) -> Seq<Seq<char>> {
    Seq::new(ls.len(), |i: int| ls[i].sub_id_value@)
}

/// Whether a subscription value differs from `v`.
pub open spec fn differs_from(v: Seq<char>) -> spec_fn(Seq<char>) -> bool {
    |x: Seq<char>| x != v
}

/// Keeps the subscriptions whose value differs from `v`.
pub open spec fn without_value(vs: Seq<Seq<char>>, v: Seq<char>) -> Seq<Seq<char>> {
    vs.filter(differs_from(v))
}

impl<C> SdkEventEmitter<C> {
    /// There is one list of listeners per event kind.
    pub closed spec fn wf(&self) -> bool {
        self.listeners@.len() == EVENT_CODE_COUNT
    }

    /// The subscription values per event kind, indexed by the kind's number.
    pub closed spec fn subscriptions(&self) -> Seq<Seq<Seq<char>>> {
        Seq::new(self.listeners@.len(), |c: int| listener_values(self.listeners@[c]@))
    }

    /// A well-formed emitter holds a list of subscriptions for each event kind.
    pub proof fn lemma_subscription_kinds(&self)
        requires
            self.wf(),
        ensures
            self.subscriptions().len() == EVENT_CODE_COUNT,
    {
    }

    /// An emitter with no listeners.
    pub fn new() -> (r: Self)
        ensures
            r.wf(),
            forall|c: int| 0 <= c < EVENT_CODE_COUNT ==> r.subscriptions()[c].len() == 0,
    {
        let mut listeners: Vec<Vec<Listener<C>>> = Vec::new();
        let mut i: usize = 0;
        while i < EVENT_CODE_COUNT
            invariant
                i <= EVENT_CODE_COUNT,
                listeners@.len() == i,
                forall|c: int| 0 <= c < i ==> listeners@[c]@.len() == 0,
            decreases EVENT_CODE_COUNT - i,
        {
            listeners.push(Vec::new());
            i = i + 1;
        }
        SdkEventEmitter { listeners }
    }

    /// Subscribes a callback to the event with the given name (`*` for all events). An unknown
    /// name subscribes nothing and gives the error subscription.
    pub fn subscribe(&mut self, event: &str, callback: C) -> (r: SubscriptionID)
        requires
            old(self).wf(),
        ensures
            final(self).wf(),
            spec_event_code_from_name(event@) == SdkEventCode::Unknown ==> r.value@ == "ERROR"@
                && r.event@ == "ERROR"@ && final(self).subscriptions() == old(self).subscriptions(),
            spec_event_code_from_name(event@) != SdkEventCode::Unknown ==> {
                let code = spec_event_code_raw(spec_event_code_from_name(event@)) as int;
                &&& r.event@ == event@
                &&& final(self).subscriptions() == old(self).subscriptions().update(
                    code,
                    old(self).subscriptions()[code].push(r.value@),
                )
            },
    {
        let code = SdkEventCode::from_name(event).as_raw();
        if code == 0 {
            return SubscriptionID::error();
        }
        let sub_id = SubscriptionID::new(event);
        let idx = code as usize;
        let ghost before = self.subscriptions();
        let mut slot = self.listeners.remove(idx);
        let ghost old_slot = slot@;
        slot.push(Listener { sub_id_value: sub_id.value.clone(), callback });
        self.listeners.insert(idx, slot);
        proof {
            assert(listener_values(self.listeners@[idx as int]@) =~= listener_values(old_slot).push(
                sub_id.value@,
            ));
            assert(self.subscriptions() =~= before.update(
                idx as int,
                before[idx as int].push(sub_id.value@),
            ));
        }
        sub_id
    }

    /// Removes every subscription to the event with the given name.
    pub fn unsubscribe(&mut self, event: &str)
        requires
            old(self).wf(),
        ensures
            final(self).wf(),
            final(self).subscriptions() == old(self).subscriptions().update(
                spec_event_code_raw(spec_event_code_from_name(event@)) as int,
                Seq::empty(),
            ),
    {
        let idx = SdkEventCode::from_name(event).as_raw() as usize;
        let ghost before = self.subscriptions();
        let ghost old_ls = self.listeners@;
        let _removed = self.listeners.remove(idx);
        let empty: Vec<Listener<C>> = Vec::new();
        self.listeners.insert(idx, empty);
        assert(self.listeners@ =~= old_ls.update(idx as int, empty));
        assert(listener_values(self.listeners@[idx as int]@) =~= Seq::<Seq<char>>::empty());
        assert(self.subscriptions() =~= before.update(idx as int, Seq::empty()));
    }

    /// Removes the subscriptions with the value of `subscription_id` from the event it names.
    pub fn unsubscribe_by_id(&mut self, subscription_id: &SubscriptionID)
        requires
            old(self).wf(),
        ensures
            final(self).wf(),
            final(self).subscriptions() == old(self).subscriptions().update(
                spec_event_code_raw(spec_event_code_from_name(subscription_id.event@)) as int,
                without_value(
                    old(self).subscriptions()[spec_event_code_raw(
                        spec_event_code_from_name(subscription_id.event@),
                    ) as int],
                    subscription_id.value@,
                ),
            ),
    {
        let idx = SdkEventCode::from_name(subscription_id.event.as_str()).as_raw() as usize;
        let ghost before = self.subscriptions();
        let slot = self.listeners.remove(idx);
        let ghost old_values = listener_values(slot@);
        let id = str_to_chars(subscription_id.value.as_str());
        let mut kept: Vec<Listener<C>> = Vec::new();
        let mut rest = slot;
        let ghost all = slot@;
        let mut taken: usize = 0;
        let n = rest.len();
        while rest.len() > 0
            invariant
                all.len() == n,
                taken + rest@.len() == all.len(),
                id@ == subscription_id.value@,
                old_values == listener_values(all),
                rest@ == all.skip(taken as int),
                listener_values(kept@) == without_value(listener_values(all.take(taken as int)), id@),
            decreases rest@.len(),
        {
            let l = rest.remove(0);
            assert(l == all[taken as int]);
            assert(rest@ =~= all.skip(taken + 1));
            proof {
                let vs = listener_values(all.take(taken + 1));
                assert(vs =~= listener_values(all.take(taken as int)).push(l.sub_id_value@));
                let p = differs_from(id@);
                listener_values(all.take(taken as int)).lemma_filter_push(l.sub_id_value@, p);
            }
            if !str_eq_chars(l.sub_id_value.as_str(), &id) {
                kept.push(l);
            }
            taken = taken + 1;
        }
        self.listeners.insert(idx, kept);
        assert(all.take(all.len() as int) =~= all);
        assert(self.subscriptions() =~= before.update(
            idx as int,
            without_value(before[idx as int], subscription_id.value@),
        ));
    }

    /// Removes every subscription.
    pub fn unsubscribe_all(&mut self)
        requires
            old(self).wf(),
        ensures
            final(self).wf(),
            forall|c: int| 0 <= c < EVENT_CODE_COUNT ==> final(self).subscriptions()[c].len() == 0,
    {
        *self = Self::new();
    }

    /// The subscription values of the event with the given name.
    pub fn subscription_values(&self, event: &str) -> (r: Vec<String>)
        requires
            self.wf(),
        ensures
            Seq::new(r@.len(), |i: int| r@[i]@) == self.subscriptions()[spec_event_code_raw(
                spec_event_code_from_name(event@),
            ) as int],
    {
        let idx = SdkEventCode::from_name(event).as_raw() as usize;
        let slot = &self.listeners[idx];
        let mut r: Vec<String> = Vec::new();
        let mut i: usize = 0;
        while i < slot.len()
            invariant
                i <= slot.len(),
                r@.len() == i,
                forall|k: int| 0 <= k < i ==> r@[k]@ == slot@[k].sub_id_value@,
            decreases slot.len() - i,
        {
            r.push(slot[i].sub_id_value.clone());
            i = i + 1;
        }
        assert(Seq::new(r@.len(), |k: int| r@[k]@) =~= listener_values(slot@));
        r
    }

    /// Every callback accepts the event.
    pub closed spec fn accepts<E>(&self, event: E) -> bool where C: Fn(E) -> () {
        forall|c: int, i: int|
            0 <= c < self.listeners@.len() && 0 <= i < self.listeners@[c]@.len() ==> call_requires(
                self.listeners@[c]@[i].callback,
                (event,),
            )
    }

    /// The subscriptions whose callbacks an event of the given kind reaches, in call order:
    /// those subscribed to all events, then those subscribed to the kind.
    pub open spec fn emit_targets(&self, code: SdkEventCode) -> Seq<Seq<char>> {
        self.subscriptions()[1] + self.subscriptions()[spec_event_code_raw(code) as int]
    }

    /// The callback of the `i`-th subscription to the event kind numbered `c`.
    pub closed spec fn callback_at(&self, c: int, i: int) -> C {
        self.listeners@[c]@[i].callback
    }

    /// Every callback subscribed to the event kind numbered `c` was called with the event.
    pub open spec fn all_called<E>(&self, c: int, event: E) -> bool where C: Fn(E) -> () {
        forall|i: int|
            0 <= i < self.subscriptions()[c].len() ==> call_ensures(
                #[trigger] self.callback_at(c, i),
                (event,),
                (),
            )
    }

    /// Calls the callbacks subscribed to all events, then those subscribed to the event's
    /// kind, each in subscription order: every callback of `emit_targets(code)` is called
    /// with the event.
    pub fn emit<E: Copy>(&self, code: SdkEventCode, event: E) where C: Fn(E) -> ()
        requires
            self.wf(),
            self.accepts(event),
        ensures
            self.all_called(1, event),
            self.all_called(spec_event_code_raw(code) as int, event),
    {
        self.emit_to(1, event);
        let idx = code.as_raw() as usize;
        self.emit_to(idx, event);
    }

    /// Calls the callbacks of one event kind in subscription order.
    fn emit_to<E: Copy>(&self, idx: usize, event: E) where C: Fn(E) -> ()
        requires
            self.wf(),
            idx < EVENT_CODE_COUNT,
            self.accepts(event),
        ensures
            self.all_called(idx as int, event),
    {
        let slot = &self.listeners[idx];
        let mut i: usize = 0;
        while i < slot.len()
            invariant
                i <= slot.len(),
                slot@ == self.listeners@[idx as int]@,
                idx < self.listeners@.len(),
                self.accepts(event),
                forall|j: int| 0 <= j < i ==> call_ensures(slot@[j].callback, (event,), ()),
            decreases slot.len() - i,
        {
            (slot[i].callback)(event);
            i = i + 1;
        }
        assert forall|j: int| 0 <= j < self.subscriptions()[idx as int].len() implies call_ensures(
            #[trigger] self.callback_at(idx as int, j),
            (event,),
            (),
        ) by {
            assert(self.callback_at(idx as int, j) == slot@[j].callback);
        }
    }
}

/// Removing a value a list does not hold leaves the list as it is.
pub proof fn lemma_without_absent(vs: Seq<Seq<char>>, v: Seq<char>)
    requires
        !vs.contains(v),
    ensures
        without_value(vs, v) == vs,
    decreases vs.len(),
{
    let p = differs_from(v);
    if vs.len() == 0 {
        vs.filter_lemma(p);
        assert(without_value(vs, v) =~= vs);
    } else {
        let init = vs.drop_last();
        assert(!init.contains(v)) by {
            if init.contains(v) {
                let i = choose|i: int| 0 <= i < init.len() && init[i] == v;
                assert(vs[i] == v);
            }
        }
        lemma_without_absent(init, v);
        assert(vs[vs.len() - 1] != v);
        init.lemma_filter_push(vs.last(), p);
        assert(init.push(vs.last()) =~= vs);
        assert(vs.filter(p) == init.filter(p).push(vs.last()));
        assert(vs.filter(p) =~= vs);
    }
}

/// Removing a value from a concatenation removes it from each part.
pub proof fn lemma_without_concat(a: Seq<Seq<char>>, b: Seq<Seq<char>>, v: Seq<char>)
    ensures
        without_value(a + b, v) == without_value(a, v) + without_value(b, v),
{
    let p = differs_from(v);
    Seq::filter_distributes_over_add(a, b, p);
}

} // verus!
