//! The music services that songs can come from.

use vstd::prelude::*;
use crate::cookie::{tidy, tidy_cookie};
use crate::text::{cat2, cat3, contains, has_text, opt, opt_str};

verus! {

#[derive(Debug, Clone, Copy, PartialEq, Eq, Hash, Structural)]
pub enum SourceKind {
    Kugou,
    KugouConcept,
    Netease,
}

/// What a service can do.
#[derive(Debug, Clone, Copy, PartialEq, Eq, Structural)]
pub struct Capability {
    /// One can log in by scanning a code.
    pub login: bool,
    /// It has playlists, charts and cloud playlists besides the search.
    pub catalog: bool,
    /// It tells about the membership.
    pub vip: bool,
    /// A login hands a token to the program; else the service keeps it and hands
    /// out a cookie.
    pub client_token: bool,
}

impl SourceKind {
    pub open spec fn name(self) -> Seq<char> {
        match self {
            SourceKind::Kugou => "酷狗"@,
            SourceKind::KugouConcept => "酷狗概念版"@,
            SourceKind::Netease => "网易云"@,
        }
    }

    /// What the service is called.
    pub fn label(self) -> (r: &'static str)
        ensures
            r@ == self.name(),
    {
        match self {
            SourceKind::Kugou => "酷狗",
            SourceKind::KugouConcept => "酷狗概念版",
            SourceKind::Netease => "网易云",
        }
    }

    pub open spec fn service(self) -> Seq<char> {
        match self {
            SourceKind::Kugou | SourceKind::KugouConcept => "KuGouMusicApi"@,
            SourceKind::Netease => "NeteaseCloudMusicApi"@,
        }
    }

    /// The server program that must run for it.
    pub fn service_name(self) -> (r: &'static str)
        ensures
            r@ == self.service(),
    {
        match self {
            SourceKind::Kugou | SourceKind::KugouConcept => "KuGouMusicApi",
            SourceKind::Netease => "NeteaseCloudMusicApi",
        }
    }

    pub open spec fn app(self) -> Seq<char> {
        match self {
            SourceKind::Kugou => "酷狗"@,
            SourceKind::KugouConcept => "酷狗概念版"@,
            SourceKind::Netease => "网易云"@,
        }
    }

    /// The app that the login code is scanned with.
    pub fn scan_app(self) -> (r: &'static str)
        ensures
            r@ == self.app(),
    {
        match self {
            SourceKind::Kugou => "酷狗",
            SourceKind::KugouConcept => "酷狗概念版",
            SourceKind::Netease => "网易云",
        }
    }

    pub open spec fn address(self) -> Seq<char> {
        match self {
            SourceKind::Kugou => "http://127.0.0.1:3000"@,
            SourceKind::KugouConcept => "http://127.0.0.1:3001"@,
            SourceKind::Netease => "http://127.0.0.1:3002"@,
        }
    }

    /// Where that server listens unless told otherwise.
    pub fn default_api_base(self) -> (r: &'static str)
        ensures
            r@ == self.address(),
    {
        match self {
            SourceKind::Kugou => "http://127.0.0.1:3000",
            SourceKind::KugouConcept => "http://127.0.0.1:3001",
            SourceKind::Netease => "http://127.0.0.1:3002",
        }
    }

    pub open spec fn can(self) -> Capability {
        Capability {
            login: true,
            catalog: true,
            vip: self != SourceKind::Netease,
            client_token: self != SourceKind::Netease,
        }
    }

    pub fn capability(self) -> (r: Capability)
        ensures
            r == self.can(),
    {
        Capability {
            login: true,
            catalog: true,
            vip: self != SourceKind::Netease,
            client_token: self != SourceKind::Netease,
        }
    }

    /// Whether requests carry the fingerprint of the device.
    pub open spec fn fingerprinted(self) -> bool {
        self != SourceKind::Netease
    }

    /// Whether requests carry the fingerprint of the device.
    pub fn uses_device_fingerprint(self) -> (r: bool)
        ensures
            r == self.fingerprinted(),
    {
        self != SourceKind::Netease
    }
}

/// The cookie that requests to a service carry: the stored one without what the
/// service says of it, and for the services that want it the fingerprint behind it,
/// unless it holds one already.
#[verifier::opaque]
pub open spec fn header_for(
    kind: SourceKind,
    cookie: Option<Seq<char>>,
    dfid: Option<Seq<char>>,
) -> Option<Seq<char>> {
    match (cookie, dfid) {
        (Some(c), Some(d)) => if kind.fingerprinted() && !has_text(tidy(c), "dfid="@) {
            Some(tidy(c) + "; dfid="@ + d)
        } else {
            Some(tidy(c))
        },
        (Some(c), None) => Some(tidy(c)),
        (None, Some(d)) => if kind.fingerprinted() {
            Some("dfid="@ + d)
        } else {
            None
        },
        (None, None) => None,
    }
}

/// The cookie that requests to a service carry.
pub fn cookie_header_for(kind: SourceKind, cookie: Option<&str>, dfid: Option<&str>) -> (r: Option<
    String,
>)
    ensures
        opt(r) == header_for(kind, opt_str(cookie), opt_str(dfid)),
{
    proof {
        reveal(header_for);
    }
    match (cookie, dfid) {
        (Some(cookie), Some(dfid)) => {
            let tidied = tidy_cookie(cookie);
            if kind.uses_device_fingerprint() && !contains(tidied.as_str(), "dfid=") {
                Some(cat3(tidied.as_str(), "; dfid=", dfid))
            } else {
                Some(tidied)
            }
        },
        (Some(cookie), None) => Some(tidy_cookie(cookie)),
        (None, Some(dfid)) => {
            if kind.uses_device_fingerprint() {
                Some(cat2("dfid=", dfid))
            } else {
                None
            }
        },
        (None, None) => None,
    }
}

/// How one service is reached and who one is there. The type of its texts is a
/// parameter, so that the view of a profile is a profile too.
#[verifier::ext_equal]
#[derive(Debug)]
pub struct SourceProfile<S = String> {
    pub api_base: S,
    pub cookie: Option<S>,
    pub device_id: Option<S>,
    pub enabled: bool,
    /// The place in the list: the lowest comes first.
    pub priority: u32,
}

impl View for SourceProfile<String> {
    type V = SourceProfile<Seq<char>>;

    open spec fn view(&self) -> SourceProfile<Seq<char>> {
        SourceProfile {
            api_base: self.api_base@,
            cookie: opt(self.cookie),
            device_id: opt(self.device_id),
            enabled: self.enabled,
            priority: self.priority,
        }
    }
}

impl SourceProfile<Seq<char>> {
    /// The profile of a service that was never used.
    pub open spec fn first(kind: SourceKind, priority: u32) -> Self {
        SourceProfile {
            api_base: kind.address(),
            cookie: None,
            device_id: None,
            enabled: true,
            priority,
        }
    }
}

impl SourceProfile<String> {
    pub fn fresh(kind: SourceKind, priority: u32) -> (r: Self)
        ensures
            r@ == SourceProfile::first(kind, priority),
    {
        SourceProfile {
            api_base: kind.default_api_base().to_owned(),
            cookie: None,
            device_id: None,
            enabled: true,
            priority,
        }
    }

    /// The cookie that requests to this service carry.
    pub fn cookie_header(&self, kind: SourceKind) -> (r: Option<String>)
        ensures
            opt(r) == header_for(kind, self@.cookie, self@.device_id),
    {
        cookie_header_for(kind, borrow(&self.cookie), borrow(&self.device_id))
    }
}

/// A borrowed view of an optional text.
pub fn borrow<'a>(o: &'a Option<String>) -> (r: Option<&'a str>)
    ensures
        opt_str(r) == opt(*o),
{
    match o {
        Some(s) => Some(s.as_str()),
        None => None,
    }
}

/// A copy of an optional text.
pub fn copy_opt(o: &Option<String>) -> (r: Option<String>)
    ensures
        r == *o,
{
    match o {
        Some(s) => Some(s.clone()),
        None => None,
    }
}

impl Clone for SourceProfile<String> {
    fn clone(&self) -> (r: Self)
        ensures
            r == *self,
    {
        SourceProfile {
            api_base: self.api_base.clone(),
            cookie: copy_opt(&self.cookie),
            device_id: copy_opt(&self.device_id),
            enabled: self.enabled,
            priority: self.priority,
        }
    }
}

/// The profiles of all services and the one in use.
#[verifier::ext_equal]
#[derive(Debug)]
pub struct SourceSet<S = String> {
    pub active: SourceKind,
    pub kugou: SourceProfile<S>,
    pub concept: SourceProfile<S>,
    pub netease: SourceProfile<S>,
}

impl View for SourceSet<String> {
    type V = SourceSet<Seq<char>>;

    open spec fn view(&self) -> SourceSet<Seq<char>> {
        SourceSet {
            active: self.active,
            kugou: self.kugou@,
            concept: self.concept@,
            netease: self.netease@,
        }
    }
}

impl<S> SourceSet<S> {
    pub open spec fn of(self, kind: SourceKind) -> SourceProfile<S> {
        match kind {
            SourceKind::Kugou => self.kugou,
            SourceKind::KugouConcept => self.concept,
            SourceKind::Netease => self.netease,
        }
    }

    /// With another profile for one service.
    pub open spec fn with(self, kind: SourceKind, profile: SourceProfile<S>) -> SourceSet<S> {
        match kind {
            SourceKind::Kugou => SourceSet { kugou: profile, ..self },
            SourceKind::KugouConcept => SourceSet { concept: profile, ..self },
            SourceKind::Netease => SourceSet { netease: profile, ..self },
        }
    }

    /// `kinds`, which are in order, with `kind` put in behind all that do not
    /// come after it.
    pub open spec fn put_in(self, kinds: Seq<SourceKind>, kind: SourceKind) -> Seq<SourceKind>
        decreases kinds.len(),
    {
        if kinds.len() == 0 || self.of(kinds.last()).priority <= self.of(kind).priority {
            kinds.push(kind)
        } else {
            self.put_in(kinds.drop_last(), kind).push(kinds.last())
        }
    }

    /// The services in the order of their priorities; those of one priority keep
    /// their fixed order.
    pub open spec fn in_order(self) -> Seq<SourceKind> {
        self.put_in(
            self.put_in(seq![SourceKind::Kugou], SourceKind::KugouConcept),
            SourceKind::Netease,
        )
    }

    /// The first service in order that is enabled.
    pub open spec fn first_enabled(self) -> Option<SourceKind> {
        let kinds = self.in_order();
        if self.of(kinds[0]).enabled {
            Some(kinds[0])
        } else if self.of(kinds[1]).enabled {
            Some(kinds[1])
        } else if self.of(kinds[2]).enabled {
            Some(kinds[2])
        } else {
            None
        }
    }

    /// With the priorities set to tens in the order of `kinds`.
    pub open spec fn renumbered(self, kinds: Seq<SourceKind>) -> SourceSet<S>
        decreases kinds.len(),
    {
        if kinds.len() == 0 {
            self
        } else {
            let before = self.renumbered(kinds.drop_last());
            before.with(
                kinds.last(),
                SourceProfile {
                    priority: (kinds.len() * 10) as u32,
                    ..before.of(kinds.last())
                },
            )
        }
    }
}

impl SourceSet<Seq<char>> {
    /// The profiles of a fresh installation.
    pub open spec fn first() -> Self {
        SourceSet {
            active: SourceKind::Kugou,
            kugou: SourceProfile::first(SourceKind::Kugou, 10),
            concept: SourceProfile::first(SourceKind::KugouConcept, 20),
            netease: SourceProfile::first(SourceKind::Netease, 30),
        }
    }
}

impl SourceSet<String> {
    /// The profiles of a fresh installation.
    pub fn fresh() -> (r: Self)
        ensures
            r@ == SourceSet::first(),
    {
        SourceSet {
            active: SourceKind::Kugou,
            kugou: SourceProfile::fresh(SourceKind::Kugou, 10),
            concept: SourceProfile::fresh(SourceKind::KugouConcept, 20),
            netease: SourceProfile::fresh(SourceKind::Netease, 30),
        }
    }

    pub fn profile(&self, kind: SourceKind) -> (r: &SourceProfile<String>)
        ensures
            *r == self.of(kind),
            r@ == self@.of(kind),
    {
        match kind {
            SourceKind::Kugou => &self.kugou,
            SourceKind::KugouConcept => &self.concept,
            SourceKind::Netease => &self.netease,
        }
    }

    /// Replaces the profile of one service.
    pub fn set_profile(&mut self, kind: SourceKind, profile: SourceProfile<String>)
        ensures
            *final(self) == old(self).with(kind, profile),
            final(self)@ == old(self)@.with(kind, profile@),
    {
        match kind {
            SourceKind::Kugou => {
                self.kugou = profile;
            },
            SourceKind::KugouConcept => {
                self.concept = profile;
            },
            SourceKind::Netease => {
                self.netease = profile;
            },
        }
    }

    fn put(&self, kinds: &mut Vec<SourceKind>, kind: SourceKind)
        ensures
            final(kinds)@ == self@.put_in(old(kinds)@, kind),
    {
        let mut at: usize = kinds.len();
        let priority: u32 = self.profile(kind).priority;
        while at > 0 && self.profile(kinds[at - 1]).priority > priority
            invariant
                at <= kinds@.len(),
                kinds@ == old(kinds)@,
                priority == self@.of(kind).priority,
                forall|j: int| at <= j < kinds@.len() ==> self@.of(kinds@[j]).priority > priority,
            decreases at,
        {
            at = at - 1;
        }
        proof {
            lemma_put_in_at(self@, kinds@, kind, at as int);
        }
        kinds.insert(at, kind);
    }

    /// The services in the order of their priorities.
    pub fn ordered(&self) -> (r: Vec<SourceKind>)
        ensures
            r@ == self@.in_order(),
            r@.len() == 3,
    {
        let mut kinds: Vec<SourceKind> = Vec::new();
        kinds.push(SourceKind::Kugou);
        assert(kinds@ =~= seq![SourceKind::Kugou]);
        self.put(&mut kinds, SourceKind::KugouConcept);
        self.put(&mut kinds, SourceKind::Netease);
        proof {
            lemma_in_order_has_all(self@);
        }
        kinds
    }

    /// The first service in order that is enabled.
    pub fn first_enabled_source(&self) -> (r: Option<SourceKind>)
        ensures
            r == self@.first_enabled(),
    {
        let kinds = self.ordered();
        if self.profile(kinds[0]).enabled {
            Some(kinds[0])
        } else if self.profile(kinds[1]).enabled {
            Some(kinds[1])
        } else if self.profile(kinds[2]).enabled {
            Some(kinds[2])
        } else {
            None
        }
    }

    /// Sets the priorities to tens in the order of `kinds`.
    pub fn renumber(&mut self, kinds: &Vec<SourceKind>)
        requires
            kinds@.len() <= 3,
        ensures
            final(self)@ == old(self)@.renumbered(kinds@),
    {
        let mut i: usize = 0;
        while i < kinds.len()
            invariant
                i <= kinds@.len() <= 3,
                self@ == old(self)@.renumbered(kinds@.take(i as int)),
            decreases kinds@.len() - i,
        {
            let kind = kinds[i];
            let mut profile = self.profile(kind).clone();
            profile.priority = (i as u32 + 1) * 10;
            self.set_profile(kind, profile);
            i = i + 1;
            assert(kinds@.take(i as int).drop_last() =~= kinds@.take(i - 1));
        }
        assert(kinds@.take(i as int) =~= kinds@);
    }
}

impl Clone for SourceSet<String> {
    fn clone(&self) -> (r: Self)
        ensures
            r == *self,
    {
        SourceSet {
            active: self.active,
            kugou: self.kugou.clone(),
            concept: self.concept.clone(),
            netease: self.netease.clone(),
        }
    }
}

proof fn lemma_put_in_at<S>(set: SourceSet<S>, kinds: Seq<SourceKind>, kind: SourceKind, at: int)
    requires
        0 <= at <= kinds.len(),
        at > 0 ==> set.of(kinds[at - 1]).priority <= set.of(kind).priority,
        forall|j: int| at <= j < kinds.len() ==> set.of(kinds[j]).priority > set.of(kind).priority,
    ensures
        set.put_in(kinds, kind) == kinds.insert(at, kind),
    decreases kinds.len(),
{
    if at == kinds.len() {
        assert(kinds.insert(at, kind) =~= kinds.push(kind));
    } else {
        lemma_put_in_at(set, kinds.drop_last(), kind, at);
        assert(kinds.insert(at, kind) =~= kinds.drop_last().insert(at, kind).push(kinds.last()));
    }
}

/// The order of the services has each of them exactly once, and no service comes
/// before one with a lower priority.
pub proof fn lemma_in_order_has_all<S>(set: SourceSet<S>)
    ensures
        set.in_order().len() == 3,
        set.in_order().no_duplicates(),
        forall|kind: SourceKind| #[trigger] set.in_order().contains(kind),
        forall|i: int, j: int|
            0 <= i <= j < 3 ==> set.of(#[trigger] set.in_order()[i]).priority <= set.of(
                #[trigger] set.in_order()[j],
            ).priority,
{
    reveal_with_fuel(SourceSet::put_in, 4);
    let one = seq![SourceKind::Kugou];
    let two = set.put_in(one, SourceKind::KugouConcept);
    let three = set.put_in(two, SourceKind::Netease);
    assert(two.len() == 2);
    assert(two =~= seq![SourceKind::Kugou, SourceKind::KugouConcept] || two
        =~= seq![SourceKind::KugouConcept, SourceKind::Kugou]);
    assert(three.len() == 3);
    assert(three =~= two.push(SourceKind::Netease) || three =~= seq![
        two[0],
        SourceKind::Netease,
        two[1],
    ] || three =~= seq![SourceKind::Netease, two[0], two[1]]);
    assert forall|kind: SourceKind| #[trigger] three.contains(kind) by {
        assert(three[0] == kind || three[1] == kind || three[2] == kind);
    }
}

/// Services that are numbered in an order stand in that order.
pub proof fn numbering_sets_the_order<S>(set: SourceSet<S>, kinds: Seq<SourceKind>)
    requires
        kinds.len() == 3,
        kinds.no_duplicates(),
    ensures
        set.renumbered(kinds).in_order() == kinds,
        set.renumbered(kinds).active == set.active,
{
    reveal_with_fuel(SourceSet::renumbered, 4);
    let (a, b, c) = (kinds[0], kinds[1], kinds[2]);
    assert(a != b && b != c && a != c);
    let front = kinds.drop_last();
    assert(front.drop_last() =~= seq![a]);
    assert(front.drop_last().drop_last() =~= Seq::<SourceKind>::empty());
    let numbered = set.renumbered(kinds);
    assert(numbered.of(a).priority == 10);
    assert(numbered.of(b).priority == 20);
    assert(numbered.of(c).priority == 30);
    lemma_in_order_has_all(numbered);
    let order = numbered.in_order();
    assert(order.contains(a) && order.contains(b) && order.contains(c));
    assert(order =~= kinds);
}

/// The first enabled service is enabled, and there is one where any is.
pub proof fn lemma_first_enabled<S>(set: SourceSet<S>, kind: SourceKind)
    ensures
        set.first_enabled() matches Some(first) ==> set.of(first).enabled,
        set.of(kind).enabled ==> set.first_enabled() is Some,
{
    lemma_in_order_has_all(set);
    assert(set.in_order().contains(kind));
}

/// The order rests on the priorities alone.
pub proof fn lemma_order_is_by_priority<S>(one: SourceSet<S>, other: SourceSet<S>)
    requires
        forall|kind: SourceKind|
            (#[trigger] one.of(kind)).priority == other.of(kind).priority,
    ensures
        one.in_order() == other.in_order(),
{
    reveal_with_fuel(SourceSet::put_in, 4);
    let start = seq![SourceKind::Kugou];
    assert(one.put_in(start, SourceKind::KugouConcept) =~= other.put_in(
        start,
        SourceKind::KugouConcept,
    ));
    assert(one.in_order() =~= other.in_order());
}

/// The fingerprint of the device is sent behind the cookie, by the services that want it, and
/// once.
pub proof fn fingerprints_are_sent_once(cookie: Seq<char>, dfid: Seq<char>, kind: SourceKind)
    requires
        kind != SourceKind::Netease,
    ensures
        !has_text(tidy(cookie), "dfid="@) ==> header_for(kind, Some(cookie), Some(dfid)) == Some(
            tidy(cookie) + "; dfid="@ + dfid,
        ),
        has_text(tidy(cookie), "dfid="@) ==> header_for(kind, Some(cookie), Some(dfid)) == Some(
            tidy(cookie),
        ),
        header_for(kind, None, Some(dfid)) == Some("dfid="@ + dfid),
{
    reveal(header_for);
}

/// One can log in to every service and browse it; the membership of a day, and a token that
/// is kept here, belong to two of them.
pub proof fn services_can_do_different_things(kind: SourceKind)
    ensures
        kind.can().login,
        kind.can().catalog,
        kind.can().vip <==> kind != SourceKind::Netease,
        kind.can().client_token <==> kind != SourceKind::Netease,
{
}

/// A profile that is set belongs to its service, and the others stay as they are.
pub proof fn profiles_belong_to_their_service<S>(
    sources: SourceSet<S>,
    kind: SourceKind,
    other: SourceKind,
    profile: SourceProfile<S>,
)
    ensures
        sources.with(kind, profile).of(kind) == profile,
        kind != other ==> sources.with(kind, profile).of(other) == sources.of(other),
        sources.with(kind, profile).active == sources.active,
{
}

} // verus!
