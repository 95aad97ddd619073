use vstd::prelude::*;
use crate::command::{AttribQuery, ConfigQuery, EglCall, Reply};
use crate::consts;

verus! {

/// The attribute sizes a config search reads.
#[derive(Clone, Copy, Debug, PartialEq, Eq, Structural)]
pub struct ConfigValues {
    pub red: i32,
    pub green: i32,
    pub blue: i32,
    pub alpha: i32,
    pub depth: i32,
}

/// Which config test a search applies.
#[derive(Clone, Copy, Debug, PartialEq, Eq, Structural)]
pub enum ConfigRule {
    /// The window test of `create_egl_context`: every query returns `EGL_TRUE`
    /// (1), 8-bit colour channels, the alpha size asked for (any when none was),
    /// and a depth buffer of exactly 16 bits.
    WindowExact,
    /// The pbuffer test of the headless context: every query returns anything but
    /// `EGL_FALSE`, 8-bit colour channels, the alpha size asked for (any when none
    /// was), and a depth buffer of at least 16 bits.
    HeadlessSuitable,
}

/// Whether a query's returned `EGLBoolean` lets the test go on.
pub open spec fn status_ok(rule: ConfigRule, status: u32) -> bool {
    match rule {
        ConfigRule::WindowExact => status == 1,
        ConfigRule::HeadlessSuitable => status != 0,
    }
}

/// Whether the values, all read successfully, pass the test.
pub open spec fn values_pass(rule: ConfigRule, v: ConfigValues, alpha_size: i32) -> bool {
    &&& v.red == 8
    &&& v.green == 8
    &&& v.blue == 8
    &&& (alpha_size == 0 || v.alpha == alpha_size)
    &&& match rule {
        ConfigRule::WindowExact => v.depth == 16,
        ConfigRule::HeadlessSuitable => v.depth >= 16,
    }
}

/// The five answers of a config, in query order.
pub open spec fn answers(q: ConfigQuery) -> Seq<AttribQuery> {
    seq![q.red, q.green, q.blue, q.alpha, q.depth]
}

pub open spec fn values_of(q: ConfigQuery) -> ConfigValues {
    ConfigValues { red: q.red.value, green: q.green.value, blue: q.blue.value, alpha: q.alpha.value, depth: q.depth.value }
}

/// Whether a config with these answers passes the test: all five queries
/// succeed and their values pass.
pub open spec fn query_passes(rule: ConfigRule, q: ConfigQuery, alpha_size: i32) -> bool {
    &&& status_ok(rule, q.red.status)
    &&& status_ok(rule, q.green.status)
    &&& status_ok(rule, q.blue.status)
    &&& status_ok(rule, q.alpha.status)
    &&& status_ok(rule, q.depth.status)
    &&& values_pass(rule, values_of(q), alpha_size)
}

/// The attribute asked for at position `k` of the query order.
pub open spec fn config_attribute(k: int) -> u32 {
    if k == 0 {
        consts::EGL_RED_SIZE
    } else if k == 1 {
        consts::EGL_GREEN_SIZE
    } else if k == 2 {
        consts::EGL_BLUE_SIZE
    } else if k == 3 {
        consts::EGL_ALPHA_SIZE
    } else {
        consts::EGL_DEPTH_SIZE
    }
}

pub open spec fn value_at(v: ConfigValues, k: int) -> i32 {
    if k == 0 {
        v.red
    } else if k == 1 {
        v.green
    } else if k == 2 {
        v.blue
    } else if k == 3 {
        v.alpha
    } else {
        v.depth
    }
}

pub open spec fn with_value(v: ConfigValues, k: int, x: i32) -> ConfigValues {
    if k == 0 {
        ConfigValues { red: x, ..v }
    } else if k == 1 {
        ConfigValues { green: x, ..v }
    } else if k == 2 {
        ConfigValues { blue: x, ..v }
    } else if k == 3 {
        ConfigValues { alpha: x, ..v }
    } else {
        ConfigValues { depth: x, ..v }
    }
}

pub open spec fn no_values() -> ConfigValues {
    ConfigValues { red: 0, green: 0, blue: 0, alpha: 0, depth: 0 }
}

/// A search among the configs EGL returned: for each config in turn, the five
/// attributes are asked one at a time, stopping at the first query that fails
/// the rule; the first config whose queries all succeed and whose values pass is
/// chosen, and `first` (EGL's first config) when none is.
#[derive(Clone, Copy, Debug, PartialEq, Eq, Structural)]
pub struct ConfigSearch {
    pub display: usize,
    pub index: usize,
    pub count: usize,
    pub first: usize,
    pub attribute: usize,
    pub values: ConfigValues,
    pub rule: ConfigRule,
    pub alpha_size: i32,
}

/// What a search does next.
#[derive(Clone, Copy, Debug, PartialEq, Eq, Structural)]
pub enum SearchStep {
    Ask(EglCall),
    Chosen(usize),
}

/// The answer an `Attrib` reply carries; any other reply counts as a failed query.
pub open spec fn reply_attrib(r: Reply) -> (usize, u32, i32) {
    match r {
        Reply::Attrib { config, status, value } => (config, status, value),
        _ => (0, 0, 0),
    }
}

pub open spec fn attrib_call(display: usize, index: usize, k: int) -> EglCall {
    EglCall::QueryConfigAttrib { display, index, attribute: config_attribute(k) }
}

impl ConfigSearch {
    pub open spec fn wf(self) -> bool {
        self.index < self.count <= 32 && self.attribute < 5
    }

    /// The config failed: the next config, or `first` after the last one.
    pub open spec fn move_on(self) -> (ConfigSearch, SearchStep) {
        if self.index + 1 < self.count {
            (
                ConfigSearch { index: (self.index + 1) as usize, attribute: 0, values: no_values(), ..self },
                SearchStep::Ask(attrib_call(self.display, (self.index + 1) as usize, 0)),
            )
        } else {
            (self, SearchStep::Chosen(self.first))
        }
    }

    pub open spec fn next(self, r: Reply) -> (ConfigSearch, SearchStep) {
        let (config, status, value) = reply_attrib(r);
        if !status_ok(self.rule, status) {
            self.move_on()
        } else if self.attribute < 4 {
            (
                ConfigSearch {
                    attribute: (self.attribute + 1) as usize,
                    values: with_value(self.values, self.attribute as int, value),
                    ..self
                },
                SearchStep::Ask(attrib_call(self.display, self.index, self.attribute + 1)),
            )
        } else if values_pass(self.rule, with_value(self.values, 4, value), self.alpha_size) {
            (self, SearchStep::Chosen(config))
        } else {
            self.move_on()
        }
    }
}

fn attribute_name(k: usize) -> (a: u32)
    ensures
        a == config_attribute(k as int),
{
    if k == 0 {
        consts::EGL_RED_SIZE
    } else if k == 1 {
        consts::EGL_GREEN_SIZE
    } else if k == 2 {
        consts::EGL_BLUE_SIZE
    } else if k == 3 {
        consts::EGL_ALPHA_SIZE
    } else {
        consts::EGL_DEPTH_SIZE
    }
}

fn set_value(v: ConfigValues, k: usize, x: i32) -> (w: ConfigValues)
    ensures
        w == with_value(v, k as int, x),
{
    if k == 0 {
        ConfigValues { red: x, ..v }
    } else if k == 1 {
        ConfigValues { green: x, ..v }
    } else if k == 2 {
        ConfigValues { blue: x, ..v }
    } else if k == 3 {
        ConfigValues { alpha: x, ..v }
    } else {
        ConfigValues { depth: x, ..v }
    }
}

fn passes(rule: ConfigRule, v: ConfigValues, alpha_size: i32) -> (b: bool)
    ensures
        b == values_pass(rule, v, alpha_size),
{
    let depth_ok = match rule {
        ConfigRule::WindowExact => v.depth == 16,
        ConfigRule::HeadlessSuitable => v.depth >= 16,
    };
    v.red == 8 && v.green == 8 && v.blue == 8 && (alpha_size == 0 || v.alpha == alpha_size) && depth_ok
}

impl ConfigSearch {
    /// Starts a search over the first `count` configs (EGL's first is `first`):
    /// the search and its first call, the red size of config 0.
    pub fn start(display: usize, count: usize, first: usize, rule: ConfigRule, alpha_size: i32) -> (res: (ConfigSearch, EglCall))
        ensures
            res.0 == (ConfigSearch { display, index: 0, count, first, attribute: 0, values: no_values(), rule, alpha_size }),
            res.1 == attrib_call(display, 0, 0),
    {
        (
            ConfigSearch {
                display,
                index: 0,
                count,
                first,
                attribute: 0,
                values: ConfigValues { red: 0, green: 0, blue: 0, alpha: 0, depth: 0 },
                rule,
                alpha_size,
            },
            EglCall::QueryConfigAttrib { display, index: 0, attribute: consts::EGL_RED_SIZE },
        )
    }

    fn move_on_exec(&mut self) -> (out: SearchStep)
        ensures
            (*final(self), out) == old(self).move_on(),
    {
        if self.index < self.count && self.index + 1 < self.count {
            self.index = self.index + 1;
            self.attribute = 0;
            self.values = ConfigValues { red: 0, green: 0, blue: 0, alpha: 0, depth: 0 };
            SearchStep::Ask(EglCall::QueryConfigAttrib { display: self.display, index: self.index, attribute: consts::EGL_RED_SIZE })
        } else {
            SearchStep::Chosen(self.first)
        }
    }

    /// Takes the answer to the last query and says what comes next.
    pub fn step(&mut self, r: &Reply) -> (out: SearchStep)
        ensures
            (*final(self), out) == old(self).next(*r),
    {
        let (config, status, value) = match r {
            Reply::Attrib { config, status, value } => (*config, *status, *value),
            _ => (0, 0, 0),
        };
        let ok = match self.rule {
            ConfigRule::WindowExact => status == 1,
            ConfigRule::HeadlessSuitable => status != 0,
        };
        if !ok {
            self.move_on_exec()
        } else if self.attribute < 4 {
            self.values = set_value(self.values, self.attribute, value);
            self.attribute = self.attribute + 1;
            SearchStep::Ask(EglCall::QueryConfigAttrib {
                display: self.display,
                index: self.index,
                attribute: attribute_name(self.attribute),
            })
        } else if passes(self.rule, set_value(self.values, 4, value), self.alpha_size) {
            SearchStep::Chosen(config)
        } else {
            self.move_on_exec()
        }
    }
}

// ---------------------------------------------------------------------------
// Laws
// ---------------------------------------------------------------------------

/// The config a search over `qs` settles on: the first that passes `test`, or
/// `fallback` when none does.
pub open spec fn first_passing(qs: Seq<ConfigQuery>, test: spec_fn(ConfigQuery) -> bool, fallback: usize) -> usize
    decreases qs.len(),
{
    if qs.len() == 0 {
        fallback
    } else if test(qs[0]) {
        qs[0].config
    } else {
        first_passing(qs.drop_first(), test, fallback)
    }
}

/// The replies a config with answers `q` gives from position `k` on: one per
/// query, up to and including the first that fails the rule.
pub open spec fn asked_from(rule: ConfigRule, q: ConfigQuery, k: nat) -> Seq<Reply>
    decreases 5 - k,
{
    if k >= 5 {
        Seq::empty()
    } else {
        let a = answers(q)[k as int];
        seq![Reply::Attrib { config: q.config, status: a.status, value: a.value }] + (if status_ok(rule, a.status) {
            asked_from(rule, q, k + 1)
        } else {
            Seq::empty()
        })
    }
}

/// The replies of a whole search over configs with answers `qs`, in order.
pub open spec fn search_replies(rule: ConfigRule, qs: Seq<ConfigQuery>) -> Seq<Reply>
    decreases qs.len(),
{
    if qs.len() == 0 {
        Seq::empty()
    } else {
        asked_from(rule, qs[0], 0) + search_replies(rule, qs.drop_first())
    }
}

/// The config chosen after the replies `rs`, if the search ends within them.
pub open spec fn search_result(s: ConfigSearch, rs: Seq<Reply>) -> Option<usize>
    decreases rs.len(),
{
    if rs.len() == 0 {
        None
    } else {
        match s.next(rs[0]).1 {
            SearchStep::Chosen(c) => Some(c),
            SearchStep::Ask(_) => search_result(s.next(rs[0]).0, rs.drop_first()),
        }
    }
}

pub open spec fn search_test(rule: ConfigRule, alpha_size: i32) -> spec_fn(ConfigQuery) -> bool {
    |q: ConfigQuery| query_passes(rule, q, alpha_size)
}

proof fn lemma_result_cons(s: ConfigSearch, x: Reply, rest: Seq<Reply>)
    ensures
        search_result(s, seq![x] + rest) == match s.next(x).1 {
            SearchStep::Chosen(c) => Some(c),
            SearchStep::Ask(_) => search_result(s.next(x).0, rest),
        },
{
    let rs = seq![x] + rest;
    assert(rs[0] == x);
    assert(rs.drop_first() =~= rest);
}

/// Answering one config from position `k`: the search either chooses it (when it
/// passes) or moves on exactly as a failed config does.
proof fn lemma_one_config(s: ConfigSearch, q: ConfigQuery, k: nat, rest: Seq<Reply>)
    requires
        s.attribute == k,
        k < 5,
        forall|j: int| 0 <= j < k ==> value_at(s.values, j) == #[trigger] answers(q)[j].value,
        forall|j: int| 0 <= j < k ==> status_ok(s.rule, #[trigger] answers(q)[j].status),
    ensures
        search_result(s, asked_from(s.rule, q, k) + rest) == if query_passes(s.rule, q, s.alpha_size) {
            Some(q.config)
        } else {
            match s.move_on().1 {
                SearchStep::Chosen(c) => Some(c),
                SearchStep::Ask(_) => search_result(s.move_on().0, rest),
            }
        },
    decreases 5 - k,
{
    let a = answers(q)[k as int];
    let x = Reply::Attrib { config: q.config, status: a.status, value: a.value };
    let tail = if status_ok(s.rule, a.status) { asked_from(s.rule, q, k + 1) } else { Seq::empty() };
    assert(asked_from(s.rule, q, k) == seq![x] + tail);
    assert(seq![x] + tail + rest =~= seq![x] + (tail + rest));
    lemma_result_cons(s, x, tail + rest);
    if !status_ok(s.rule, a.status) {
        assert(tail + rest =~= rest);
        assert(!query_passes(s.rule, q, s.alpha_size));
    } else if k < 4 {
        let s1 = s.next(x).0;
        assert forall|j: int| 0 <= j < k + 1 implies value_at(s1.values, j) == #[trigger] answers(q)[j].value by {
        }
        assert forall|j: int| 0 <= j < k + 1 implies status_ok(s1.rule, #[trigger] answers(q)[j].status) by {
        }
        lemma_one_config(s1, q, k + 1, rest);
        assert(s1.move_on() == (if s.index + 1 < s.count {
            (
                ConfigSearch { index: (s.index + 1) as usize, attribute: 0, values: no_values(), ..s },
                SearchStep::Ask(attrib_call(s.display, (s.index + 1) as usize, 0)),
            )
        } else {
            (s1, SearchStep::Chosen(s.first))
        }));
    } else {
        assert(tail + rest =~= rest);
        let v = with_value(s.values, 4, a.value);
        assert(value_at(s.values, 0) == answers(q)[0].value);
        assert(value_at(s.values, 1) == answers(q)[1].value);
        assert(value_at(s.values, 2) == answers(q)[2].value);
        assert(value_at(s.values, 3) == answers(q)[3].value);
        assert(status_ok(s.rule, answers(q)[0].status));
        assert(status_ok(s.rule, answers(q)[1].status));
        assert(status_ok(s.rule, answers(q)[2].status));
        assert(status_ok(s.rule, answers(q)[3].status));
        assert(v == values_of(q));
    }
}

proof fn lemma_search_from(s: ConfigSearch, qs: Seq<ConfigQuery>)
    requires
        s.attribute == 0,
        s.index < s.count,
        qs.len() == s.count - s.index,
    ensures
        search_result(s, search_replies(s.rule, qs)) == Some(first_passing(qs, search_test(s.rule, s.alpha_size), s.first)),
    decreases qs.len(),
{
    let t = search_test(s.rule, s.alpha_size);
    assert(search_replies(s.rule, qs) == asked_from(s.rule, qs[0], 0) + search_replies(s.rule, qs.drop_first()));
    lemma_one_config(s, qs[0], 0, search_replies(s.rule, qs.drop_first()));
    if t(qs[0]) {
    } else {
        assert(first_passing(qs, t, s.first) == first_passing(qs.drop_first(), t, s.first));
        if s.index + 1 < s.count {
            lemma_search_from(s.move_on().0, qs.drop_first());
        } else {
            assert(qs.drop_first().len() == 0);
        }
    }
}

/// A search over configs whose answers are `qs` (at most 32 configs, as EGL
/// returned them) chooses the first config that passes the test, and EGL's first
/// config when none passes; it asks each config's attributes in order and stops
/// asking a config at its first failed query.
pub proof fn lemma_search_chooses_first_passing(s: ConfigSearch, qs: Seq<ConfigQuery>)
    requires
        s == (ConfigSearch { index: 0, attribute: 0, values: no_values(), ..s }),
        s.count == qs.len(),
        0 < qs.len() <= 32,
    ensures
        search_result(s, search_replies(s.rule, qs)) == Some(first_passing(qs, search_test(s.rule, s.alpha_size), s.first)),
{
    lemma_search_from(s, qs);
}

/// A search keeps to its configs and attributes, and each step asks for the next
/// attribute of the same config, the red size of the next config, or ends.
pub proof fn lemma_search_progress(s: ConfigSearch, r: Reply)
    requires
        s.wf(),
    ensures
        s.next(r).1 is Ask ==> s.next(r).0.wf() && (5 * s.next(r).0.index + s.next(r).0.attribute > 5 * s.index + s.attribute),
        s.next(r).0.display == s.display && s.next(r).0.count == s.count && s.next(r).0.first == s.first,
        s.next(r).0.rule == s.rule && s.next(r).0.alpha_size == s.alpha_size,
        s.next(r).1 matches SearchStep::Ask(call) ==> call == attrib_call(s.display, s.next(r).0.index, s.next(r).0.attribute as int),
{
}


/// Whether an `EGLBoolean` lets a test go on: the window test wants `EGL_TRUE`
/// (1), the pbuffer test anything but `EGL_FALSE` (0).
proof fn lemma_status_ok_is(rule: ConfigRule, status: u32)
    ensures
        status_ok(rule, status) <==> (if rule == ConfigRule::WindowExact { status == 1 } else { status != 0 }),
{
}

/// A config passes the test exactly when all five queries succeed (window:
/// each returns 1; pbuffer: none returns 0), red, green and blue are 8 bits, the
/// alpha size is the one asked for or anything when none was asked for (0), and
/// the depth is 16 bits (window) or at least 16 bits (pbuffer).
pub proof fn lemma_config_test_exact(rule: ConfigRule, q: ConfigQuery, alpha_size: i32)
    ensures
        query_passes(rule, q, alpha_size) <==> {
            &&& (if rule == ConfigRule::WindowExact {
                q.red.status == 1 && q.green.status == 1 && q.blue.status == 1 && q.alpha.status == 1
                    && q.depth.status == 1
            } else {
                q.red.status != 0 && q.green.status != 0 && q.blue.status != 0 && q.alpha.status != 0
                    && q.depth.status != 0
            })
            &&& q.red.value == 8 && q.green.value == 8 && q.blue.value == 8
            &&& (alpha_size == 0 || q.alpha.value == alpha_size)
            &&& (if rule == ConfigRule::WindowExact { q.depth.value == 16 } else { q.depth.value >= 16 })
        },
{
}

/// The depth answer, the last of a config's five, settles it: the search takes the
/// config when the query succeeded and the sizes read pass (8-bit colour, the
/// alpha asked for or any alpha when none was, 16-bit or at least 16-bit depth);
/// otherwise it moves on to the next config (or EGL's first after the last).
/// An unasked-for alpha channel never disqualifies a config.
pub proof fn lemma_depth_answer_decides(s: ConfigSearch, config: usize, status: u32, value: i32)
    requires
        s.attribute == 4,
    ensures
        ({
            let ok = if s.rule == ConfigRule::WindowExact { status == 1 } else { status != 0 };
            let pass = {
                &&& s.values.red == 8 && s.values.green == 8 && s.values.blue == 8
                &&& (s.alpha_size == 0 || s.values.alpha == s.alpha_size)
                &&& (if s.rule == ConfigRule::WindowExact { value == 16 } else { value >= 16 })
            };
            &&& ok && pass ==> s.next(Reply::Attrib { config, status, value }) == (s, SearchStep::Chosen(config))
            &&& !(ok && pass) ==> s.next(Reply::Attrib { config, status, value }) == s.move_on()
        }),
{
    lemma_status_ok_is(s.rule, status);
}

} // verus!
