//! Power-plan provider: the desktop strategy swaps the active power scheme,
//! the laptop strategy patches two sub-values of the current one.
use vstd::prelude::*;
use vstd::string::StringExecFns;
use crate::effect::{push_deep, Effect, EffectView};
use crate::text::{chars_of, contains, has_substring, lowercase, same_text, to_lowercase};

verus! {

/// The "high performance" scheme.
pub const GUID_HIGH_PERFORMANCE: u128 = 0x8c5e7fda_e8bf_4a96_9a85_a6e23a8c635c;

/// The "ultimate performance" scheme, hidden on many systems until it is
/// duplicated from its template.
pub const GUID_ULTIMATE_PERFORMANCE: u128 = 0xe9a42b02_d5df_448d_aa00_03f14749eb61;

/// The processor sub-group of a scheme.
pub const GUID_PROCESSOR_SUBGROUP: u128 = 0x54533251_82be_4824_96c1_47b60b740d00;

/// Processor performance boost mode.
pub const GUID_PROCESSOR_PERF_BOOST_MODE: u128 = 0xbe337238_0d82_4146_a960_4f3749d470c7;

/// Minimum processor state, in percent.
pub const GUID_PROCESSOR_THROTTLE_MINIMUM: u128 = 0x893dee8e_2bef_41e0_89c6_b55d0929964c;

/// The aggressive boost mode.
pub const BOOST_AGGRESSIVE: u32 = 4;

/// The lower-case hexadecimal digit of `d`, for `0 <= d < 16`.
pub open spec fn hex_char(d: int) -> char {
    if d == 0 {
        '0'
    } else if d == 1 {
        '1'
    } else if d == 2 {
        '2'
    } else if d == 3 {
        '3'
    } else if d == 4 {
        '4'
    } else if d == 5 {
        '5'
    } else if d == 6 {
        '6'
    } else if d == 7 {
        '7'
    } else if d == 8 {
        '8'
    } else if d == 9 {
        '9'
    } else if d == 10 {
        'a'
    } else if d == 11 {
        'b'
    } else if d == 12 {
        'c'
    } else if d == 13 {
        'd'
    } else if d == 14 {
        'e'
    } else {
        'f'
    }
}

/// The `n` least significant hexadecimal digits of `g`, most significant first.
pub open spec fn hex_digits(g: int, n: nat) -> Seq<char>
    decreases n,
{
    if n == 0 {
        Seq::empty()
    } else {
        hex_digits(g / 16, (n - 1) as nat).push(hex_char(g % 16))
    }
}

/// The textual form of a scheme identifier: 32 lower-case hexadecimal
/// digits in groups of 8, 4, 4, 4 and 12, separated by hyphens.
pub open spec fn guid_text(g: u128) -> Seq<char> {
    hex_digits(g as int / 0x1_0000_0000_0000_0000_0000_0000, 8) + seq!['-'] + hex_digits(
        g as int / 0x1_0000_0000_0000_0000_0000,
        4,
    ) + seq!['-'] + hex_digits(g as int / 0x1_0000_0000_0000_0000, 4) + seq!['-'] + hex_digits(
        g as int / 0x1_0000_0000_0000,
        4,
    ) + seq!['-'] + hex_digits(g as int, 12)
}

/// Whether a scheme listing mentions the scheme: the lower-case listing
/// contains the lower-case textual form of the identifier. A listing that
/// could not be obtained mentions nothing.
pub open spec fn plan_listed(listing: Option<Seq<char>>, scheme: u128) -> bool {
    match listing {
        Some(text) => contains(lowercase(text), lowercase(guid_text(scheme))),
        None => false,
    }
}

pub open spec fn activate(scheme: u128) -> EffectView {
    EffectView::ActivateScheme { scheme }
}

/// The request that materializes a scheme from its template.
pub open spec fn duplicate(scheme: u128) -> EffectView {
    EffectView::Run {
        program: "powercfg"@,
        args: seq!["-duplicatescheme"@, guid_text(scheme)],
        wait: true,
    }
}

pub open spec fn write_ac(scheme: u128, setting: u128, value: u32) -> EffectView {
    EffectView::WriteAcValue { scheme, subgroup: GUID_PROCESSOR_SUBGROUP, setting, value }
}

/// First step of the desktop strategy: activate the ultimate scheme when it
/// is listed, otherwise try to materialize it.
pub open spec fn high_performance_effects(listing: Option<Seq<char>>) -> Seq<EffectView> {
    if plan_listed(listing, GUID_ULTIMATE_PERFORMANCE) {
        seq![activate(GUID_ULTIMATE_PERFORMANCE)]
    } else {
        seq![duplicate(GUID_ULTIMATE_PERFORMANCE)]
    }
}

/// Step after the duplication, given the new listing: activate the ultimate
/// scheme when it is listed now, otherwise the high performance scheme.
pub open spec fn after_duplicate_effects(listing: Option<Seq<char>>) -> Seq<EffectView> {
    if plan_listed(listing, GUID_ULTIMATE_PERFORMANCE) {
        seq![activate(GUID_ULTIMATE_PERFORMANCE)]
    } else {
        seq![activate(GUID_HIGH_PERFORMANCE)]
    }
}

/// Step after an activation: a failed activation of the ultimate scheme
/// falls back to the high performance scheme; anything else ends the
/// strategy.
pub open spec fn after_activation_effects(scheme: u128, succeeded: bool) -> Seq<EffectView> {
    if scheme == GUID_ULTIMATE_PERFORMANCE && !succeeded {
        seq![activate(GUID_HIGH_PERFORMANCE)]
    } else {
        Seq::empty()
    }
}

/// What follows a request of the desktop strategy that was carried out:
/// after the duplication the new listing decides, after an activation its
/// outcome does, and after anything else nothing follows.
pub open spec fn follow_up_effects(
    done: EffectView,
    succeeded: bool,
    listing: Option<Seq<char>>,
) -> Seq<EffectView> {
    if done == duplicate(GUID_ULTIMATE_PERFORMANCE) {
        after_duplicate_effects(listing)
    } else {
        match done {
            EffectView::ActivateScheme { scheme } => after_activation_effects(scheme, succeeded),
            _ => Seq::empty(),
        }
    }
}

/// The laptop strategy on the scheme `active`.
pub open spec fn laptop_effects(active: Option<u128>) -> Seq<EffectView> {
    match active {
        Some(scheme) => seq![
            write_ac(scheme, GUID_PROCESSOR_PERF_BOOST_MODE, BOOST_AGGRESSIVE),
            write_ac(scheme, GUID_PROCESSOR_THROTTLE_MINIMUM, 100),
            activate(scheme),
        ],
        None => Seq::empty(),
    }
}

/// The value of one plugged-in sub-value after `effects`, given that it was
/// `before`.
pub open spec fn ac_value_after(
    before: u32,
    effects: Seq<EffectView>,
    scheme: u128,
    subgroup: u128,
    setting: u128,
) -> u32
    decreases effects.len(),
{
    if effects.len() == 0 {
        before
    } else {
        let earlier = ac_value_after(before, effects.drop_last(), scheme, subgroup, setting);
        match effects.last() {
            EffectView::WriteAcValue { scheme: s, subgroup: g, setting: t, value } => if s == scheme
                && g == subgroup && t == setting {
                value
            } else {
                earlier
            },
            _ => earlier,
        }
    }
}

/// The values captured before the power plan is changed.
#[derive(Clone, Copy, Debug, PartialEq, Eq)]
pub struct PowerService {
    /// Scheme to reactivate on the desktop path.
    pub original_scheme: Option<u128>,
    /// Boost mode to write back on the laptop path.
    pub original_boost_mode: Option<u32>,
    /// Minimum processor state to write back on the laptop path.
    pub original_min_processor: Option<u32>,
    /// The scheme the laptop path patched.
    pub laptop_active_scheme: Option<u128>,
}

impl PowerService {
    /// What `revert_power_plan` asks for.
    pub open spec fn revert_plan_effects(&self) -> Seq<EffectView> {
        match self.original_scheme {
            Some(scheme) => seq![activate(scheme)],
            None => Seq::empty(),
        }
    }

    /// What `revert_laptop_boost` asks for: nothing when no scheme was
    /// patched; otherwise each captured sub-value written back, then the
    /// scheme applied again.
    pub open spec fn revert_laptop_effects(&self) -> Seq<EffectView> {
        match self.laptop_active_scheme {
            Some(scheme) => {
                let boost = match self.original_boost_mode {
                    Some(v) => seq![write_ac(scheme, GUID_PROCESSOR_PERF_BOOST_MODE, v)],
                    None => Seq::empty(),
                };
                let min = match self.original_min_processor {
                    Some(v) => seq![write_ac(scheme, GUID_PROCESSOR_THROTTLE_MINIMUM, v)],
                    None => Seq::empty(),
                };
                boost + min + seq![activate(scheme)]
            },
            None => Seq::empty(),
        }
    }

    /// The state after `optimize_laptop_boost`.
    pub open spec fn after_laptop_boost(
        &self,
        active: Option<u128>,
        boost_mode: Option<u32>,
        min_processor: Option<u32>,
    ) -> PowerService {
        PowerService {
            original_scheme: self.original_scheme,
            original_boost_mode: if active.is_some() {
                boost_mode
            } else {
                None
            },
            original_min_processor: if active.is_some() {
                min_processor
            } else {
                None
            },
            laptop_active_scheme: active,
        }
    }

    /// A provider that remembers the scheme active at start-up.
    pub fn new(active_scheme: Option<u128>) -> (s: Self)
        ensures
            s == (PowerService {
                original_scheme: active_scheme,
                original_boost_mode: None,
                original_min_processor: None,
                laptop_active_scheme: None,
            }),
    {
        PowerService {
            original_scheme: active_scheme,
            original_boost_mode: None,
            original_min_processor: None,
            laptop_active_scheme: None,
        }
    }

    fn hex_digit(d: u8) -> (s: &'static str)
        requires
            d < 16,
        ensures
            s@ == seq![hex_char(d as int)],
    {
        proof {
            reveal_strlit("0");
            reveal_strlit("1");
            reveal_strlit("2");
            reveal_strlit("3");
            reveal_strlit("4");
            reveal_strlit("5");
            reveal_strlit("6");
            reveal_strlit("7");
            reveal_strlit("8");
            reveal_strlit("9");
            reveal_strlit("a");
            reveal_strlit("b");
            reveal_strlit("c");
            reveal_strlit("d");
            reveal_strlit("e");
            reveal_strlit("f");
        }
        let s = match d {
            0 => "0",
            1 => "1",
            2 => "2",
            3 => "3",
            4 => "4",
            5 => "5",
            6 => "6",
            7 => "7",
            8 => "8",
            9 => "9",
            10 => "a",
            11 => "b",
            12 => "c",
            13 => "d",
            14 => "e",
            _ => "f",
        };
        assert(s@ =~= seq![hex_char(d as int)]);
        s
    }

    /// Appends the `n` least significant hexadecimal digits of `g`.
    fn push_hex(out: &mut String, g: u128, n: u8)
        ensures
            final(out)@ == old(out)@ + hex_digits(g as int, n as nat),
        decreases n,
    {
        if n == 0 {
            assert(out@ =~= old(out)@ + hex_digits(g as int, 0));
        } else {
            Self::push_hex(out, g / 16, n - 1);
            out.append(Self::hex_digit((g % 16) as u8));
            assert(out@ =~= old(out)@ + hex_digits(g as int, n as nat));
        }
    }

    /// The textual form of a scheme identifier.
    pub fn format_guid(scheme: u128) -> (text: String)
        ensures
            text@ == guid_text(scheme),
    {
        proof {
            reveal_strlit("-");
        }
        let mut text = String::new();
        Self::push_hex(&mut text, scheme / 0x1_0000_0000_0000_0000_0000_0000, 8);
        text.append("-");
        Self::push_hex(&mut text, scheme / 0x1_0000_0000_0000_0000_0000, 4);
        text.append("-");
        Self::push_hex(&mut text, scheme / 0x1_0000_0000_0000_0000, 4);
        text.append("-");
        Self::push_hex(&mut text, scheme / 0x1_0000_0000_0000, 4);
        text.append("-");
        Self::push_hex(&mut text, scheme, 12);
        assert("-"@ =~= seq!['-']);
        assert(text@ =~= guid_text(scheme));
        text
    }

    /// Whether `needle` occurs in `haystack`; both are taken as given.
    pub fn listed_in(haystack: &str, needle: &str) -> (r: bool)
        ensures
            r == contains(haystack@, needle@),
    {
        let h = chars_of(haystack);
        let n = chars_of(needle);
        has_substring(&h, &n)
    }

    /// Whether the scheme listing mentions `scheme`, ignoring letter case.
    pub fn power_plan_exists(listing: Option<&str>, scheme: u128) -> (r: bool)
        ensures
            r == plan_listed(
                match listing {
                    Some(text) => Some(text@),
                    None => None,
                },
                scheme,
            ),
    {
        match listing {
            Some(text) => {
                let haystack = to_lowercase(text);
                let needle = to_lowercase(Self::format_guid(scheme).as_str());
                Self::listed_in(haystack.as_str(), needle.as_str())
            },
            None => false,
        }
    }

    /// The request that materializes `scheme` from its template.
    pub fn duplicate_power_scheme(scheme: u128) -> (e: Effect)
        ensures
            e@ == duplicate(scheme),
    {
        let mut args: Vec<String> = Vec::new();
        push_deep(&mut args, "-duplicatescheme".to_owned());
        push_deep(&mut args, Self::format_guid(scheme));
        assert(args.deep_view() =~= seq!["-duplicatescheme"@, guid_text(scheme)]);
        Effect::Run { program: "powercfg".to_owned(), args, wait: true }
    }

    /// Desktop strategy, first step. Captures the active scheme, then asks
    /// for the ultimate scheme to be activated if `listing` mentions it, and
    /// to be materialized from its template if not. The caller reports back
    /// through `after_duplicate` and `after_activation`.
    pub fn set_high_performance(&mut self, active: Option<u128>, listing: Option<&str>) -> (effects:
        Vec<Effect>)
        ensures
            *final(self) == (PowerService { original_scheme: active, ..*old(self) }),
            effects.deep_view() == high_performance_effects(
                match listing {
                    Some(text) => Some(text@),
                    None => None,
                },
            ),
    {
        self.original_scheme = active;
        let mut effects: Vec<Effect> = Vec::new();
        if Self::power_plan_exists(listing, GUID_ULTIMATE_PERFORMANCE) {
            push_deep(&mut effects, Effect::ActivateScheme { scheme: GUID_ULTIMATE_PERFORMANCE });
            assert(effects.deep_view() =~= seq![activate(GUID_ULTIMATE_PERFORMANCE)]);
        } else {
            push_deep(&mut effects, Self::duplicate_power_scheme(GUID_ULTIMATE_PERFORMANCE));
            assert(effects.deep_view() =~= seq![duplicate(GUID_ULTIMATE_PERFORMANCE)]);
        }
        effects
    }

    /// Desktop strategy, after the duplication: `listing` is the scheme
    /// listing taken after it.
    pub fn after_duplicate(listing: Option<&str>) -> (effects: Vec<Effect>)
        ensures
            effects.deep_view() == after_duplicate_effects(
                match listing {
                    Some(text) => Some(text@),
                    None => None,
                },
            ),
    {
        let mut effects: Vec<Effect> = Vec::new();
        if Self::power_plan_exists(listing, GUID_ULTIMATE_PERFORMANCE) {
            push_deep(&mut effects, Effect::ActivateScheme { scheme: GUID_ULTIMATE_PERFORMANCE });
            assert(effects.deep_view() =~= seq![activate(GUID_ULTIMATE_PERFORMANCE)]);
        } else {
            push_deep(&mut effects, Effect::ActivateScheme { scheme: GUID_HIGH_PERFORMANCE });
            assert(effects.deep_view() =~= seq![activate(GUID_HIGH_PERFORMANCE)]);
        }
        effects
    }

    /// Desktop strategy, after an activation of `scheme` that succeeded or
    /// not.
    pub fn after_activation(scheme: u128, succeeded: bool) -> (effects: Vec<Effect>)
        ensures
            effects.deep_view() == after_activation_effects(scheme, succeeded),
    {
        let mut effects: Vec<Effect> = Vec::new();
        if scheme == GUID_ULTIMATE_PERFORMANCE && !succeeded {
            push_deep(&mut effects, Effect::ActivateScheme { scheme: GUID_HIGH_PERFORMANCE });
            assert(effects.deep_view() =~= seq![activate(GUID_HIGH_PERFORMANCE)]);
        } else {
            assert(effects.deep_view() =~= Seq::<EffectView>::empty());
        }
        effects
    }

    /// Whether `done` is the duplication request, after which the caller has
    /// to take a new scheme listing for `follow_up`.
    pub fn needs_listing(done: &Effect) -> (r: bool)
        ensures
            r == (done@ == duplicate(GUID_ULTIMATE_PERFORMANCE)),
    {
        match done {
            Effect::Run { program, args, wait } => {
                if *wait && args.len() == 2 && same_text(program.as_str(), "powercfg") && same_text(
                    args[0].as_str(),
                    "-duplicatescheme",
                ) && same_text(
                    args[1].as_str(),
                    Self::format_guid(GUID_ULTIMATE_PERFORMANCE).as_str(),
                ) {
                    assert(args.deep_view() =~= seq![
                        "-duplicatescheme"@,
                        guid_text(GUID_ULTIMATE_PERFORMANCE),
                    ]);
                    true
                } else {
                    proof {
                        if done@ == duplicate(GUID_ULTIMATE_PERFORMANCE) {
                            let expected = seq![
                                "-duplicatescheme"@,
                                guid_text(GUID_ULTIMATE_PERFORMANCE),
                            ];
                            assert(args.deep_view() == expected);
                            assert(args.deep_view().len() == 2);
                            assert(args.deep_view()[0] == expected[0]);
                            assert(args.deep_view()[1] == expected[1]);
                        }
                    }
                    false
                }
            },
            _ => false,
        }
    }

    /// Desktop strategy, continued: what to do after the request `done` was
    /// carried out with the given outcome. `listing` is the scheme listing
    /// taken after a duplication; it is not looked at otherwise. The
    /// strategy is over when nothing is returned.
    pub fn follow_up(done: &Effect, succeeded: bool, listing: Option<&str>) -> (effects: Vec<
        Effect,
    >)
        ensures
            effects.deep_view() == follow_up_effects(done@, succeeded, listing.deep_view()),
    {
        if Self::needs_listing(done) {
            Self::after_duplicate(listing)
        } else {
            match done {
                Effect::ActivateScheme { scheme } => Self::after_activation(*scheme, succeeded),
                _ => {
                    let none: Vec<Effect> = Vec::new();
                    assert(none.deep_view() =~= Seq::<EffectView>::empty());
                    none
                },
            }
        }
    }

    /// Laptop strategy. Captures the active scheme and its boost mode and
    /// minimum processor state as read by the caller, then asks for
    /// aggressive boost and a minimum state of 100 percent, and for the
    /// scheme to be applied again so that the change takes effect. Without
    /// an active scheme nothing is captured and nothing asked for.
    pub fn optimize_laptop_boost(
        &mut self,
        active: Option<u128>,
        boost_mode: Option<u32>,
        min_processor: Option<u32>,
    ) -> (effects: Vec<Effect>)
        ensures
            *final(self) == old(self).after_laptop_boost(active, boost_mode, min_processor),
            effects.deep_view() == laptop_effects(active),
    {
        let mut effects: Vec<Effect> = Vec::new();
        self.laptop_active_scheme = active;
        match active {
            Some(scheme) => {
                self.original_boost_mode = boost_mode;
                self.original_min_processor = min_processor;
                push_deep(
                    &mut effects,
                    Effect::WriteAcValue {
                        scheme,
                        subgroup: GUID_PROCESSOR_SUBGROUP,
                        setting: GUID_PROCESSOR_PERF_BOOST_MODE,
                        value: BOOST_AGGRESSIVE,
                    },
                );
                push_deep(
                    &mut effects,
                    Effect::WriteAcValue {
                        scheme,
                        subgroup: GUID_PROCESSOR_SUBGROUP,
                        setting: GUID_PROCESSOR_THROTTLE_MINIMUM,
                        value: 100,
                    },
                );
                push_deep(&mut effects, Effect::ActivateScheme { scheme });
            },
            None => {
                self.original_boost_mode = None;
                self.original_min_processor = None;
            },
        }
        assert(effects.deep_view() =~= laptop_effects(active));
        effects
    }

    /// Desktop revert: reactivates the captured scheme.
    pub fn revert_power_plan(&self) -> (effects: Vec<Effect>)
        ensures
            effects.deep_view() == self.revert_plan_effects(),
    {
        let mut effects: Vec<Effect> = Vec::new();
        match self.original_scheme {
            Some(scheme) => {
                push_deep(&mut effects, Effect::ActivateScheme { scheme });
            },
            None => {},
        }
        assert(effects.deep_view() =~= self.revert_plan_effects());
        effects
    }

    /// Laptop revert: writes the captured sub-values back and applies the
    /// scheme again.
    pub fn revert_laptop_boost(&self) -> (effects: Vec<Effect>)
        ensures
            effects.deep_view() == self.revert_laptop_effects(),
    {
        let mut effects: Vec<Effect> = Vec::new();
        match self.laptop_active_scheme {
            Some(scheme) => {
                match self.original_boost_mode {
                    Some(value) => {
                        push_deep(
                            &mut effects,
                            Effect::WriteAcValue {
                                scheme,
                                subgroup: GUID_PROCESSOR_SUBGROUP,
                                setting: GUID_PROCESSOR_PERF_BOOST_MODE,
                                value,
                            },
                        );
                    },
                    None => {},
                }
                match self.original_min_processor {
                    Some(value) => {
                        push_deep(
                            &mut effects,
                            Effect::WriteAcValue {
                                scheme,
                                subgroup: GUID_PROCESSOR_SUBGROUP,
                                setting: GUID_PROCESSOR_THROTTLE_MINIMUM,
                                value,
                            },
                        );
                    },
                    None => {},
                }
                push_deep(&mut effects, Effect::ActivateScheme { scheme });
            },
            None => {},
        }
        assert(effects.deep_view() =~= self.revert_laptop_effects());
        effects
    }

    /// Revert for callers that do not know the chassis: the desktop revert.
    pub fn revert(&self) -> (effects: Vec<Effect>)
        ensures
            effects.deep_view() == self.revert_plan_effects(),
    {
        self.revert_power_plan()
    }
}

/// The active scheme after `effects`, given that it was `before`.
pub open spec fn active_after(before: Option<u128>, effects: Seq<EffectView>) -> Option<u128>
    decreases effects.len(),
{
    if effects.len() == 0 {
        before
    } else {
        match effects.last() {
            EffectView::ActivateScheme { scheme } => Some(scheme),
            _ => active_after(before, effects.drop_last()),
        }
    }
}

/// When the effect at `i` writes a sub-value and no later effect writes it
/// again, the sub-value ends up as that effect wrote it.
pub proof fn lemma_last_ac_write(
    before: u32,
    effects: Seq<EffectView>,
    i: int,
    scheme: u128,
    setting: u128,
    value: u32,
)
    requires
        0 <= i < effects.len(),
        effects[i] == write_ac(scheme, setting, value),
        forall|j: int|
            i < j < effects.len() ==> !(#[trigger] effects[j] matches EffectView::WriteAcValue {
                scheme: s,
                subgroup: g,
                setting: t,
                ..
            } && s == scheme && g == GUID_PROCESSOR_SUBGROUP && t == setting),
    ensures
        ac_value_after(before, effects, scheme, GUID_PROCESSOR_SUBGROUP, setting) == value,
    decreases effects.len(),
{
    if i < effects.len() - 1 {
        let rest = effects.drop_last();
        assert(rest[i] == effects[i]);
        assert forall|j: int| i < j < rest.len() implies !(#[trigger] rest[j] matches EffectView::WriteAcValue {
            scheme: s,
            subgroup: g,
            setting: t,
            ..
        } && s == scheme && g == GUID_PROCESSOR_SUBGROUP && t == setting) by {
            assert(rest[j] == effects[j]);
        }
        lemma_last_ac_write(before, rest, i, scheme, setting, value);
        assert(!(effects.last() matches EffectView::WriteAcValue {
            scheme: s,
            subgroup: g,
            setting: t,
            ..
        } && s == scheme && g == GUID_PROCESSOR_SUBGROUP && t == setting)) by {
            assert(effects.last() == effects[effects.len() - 1]);
        }
    }
}

/// Round trip of the laptop strategy: when the boost mode and the minimum
/// processor state of the active scheme could be read, patching them and
/// reverting leaves both as they were read, and the scheme active.
pub proof fn lemma_laptop_round_trip(
    service: PowerService,
    scheme: u128,
    boost_mode: u32,
    min_processor: u32,
)
    ensures
        ({
            let patched = service.after_laptop_boost(
                Some(scheme),
                Some(boost_mode),
                Some(min_processor),
            );
            let all = laptop_effects(Some(scheme)) + patched.revert_laptop_effects();
            &&& ac_value_after(
                boost_mode,
                all,
                scheme,
                GUID_PROCESSOR_SUBGROUP,
                GUID_PROCESSOR_PERF_BOOST_MODE,
            ) == boost_mode
            &&& ac_value_after(
                min_processor,
                all,
                scheme,
                GUID_PROCESSOR_SUBGROUP,
                GUID_PROCESSOR_THROTTLE_MINIMUM,
            ) == min_processor
            &&& active_after(Some(scheme), all) == Some(scheme)
        }),
{
    let patched = service.after_laptop_boost(Some(scheme), Some(boost_mode), Some(min_processor));
    let all = laptop_effects(Some(scheme)) + patched.revert_laptop_effects();
    assert(all =~= seq![
        write_ac(scheme, GUID_PROCESSOR_PERF_BOOST_MODE, BOOST_AGGRESSIVE),
        write_ac(scheme, GUID_PROCESSOR_THROTTLE_MINIMUM, 100),
        activate(scheme),
        write_ac(scheme, GUID_PROCESSOR_PERF_BOOST_MODE, boost_mode),
        write_ac(scheme, GUID_PROCESSOR_THROTTLE_MINIMUM, min_processor),
        activate(scheme),
    ]);
    lemma_last_ac_write(boost_mode, all, 3, scheme, GUID_PROCESSOR_PERF_BOOST_MODE, boost_mode);
    lemma_last_ac_write(
        min_processor,
        all,
        4,
        scheme,
        GUID_PROCESSOR_THROTTLE_MINIMUM,
        min_processor,
    );
}

/// Round trip of the desktop strategy: whatever the strategy activated,
/// the revert leaves the scheme active that was captured at its start.
pub proof fn lemma_desktop_round_trip(
    service: PowerService,
    scheme: u128,
    strategy: Seq<EffectView>,
)
    ensures
        active_after(
            Some(scheme),
            strategy + (PowerService { original_scheme: Some(scheme), ..service }).revert_plan_effects(),
        ) == Some(scheme),
{
    let undo = (PowerService { original_scheme: Some(scheme), ..service }).revert_plan_effects();
    assert((strategy + undo).last() == activate(scheme));
}

/// The desktop strategy ends. Each step asks for at most one request, and
/// whatever the listings and outcomes are, the third follow-up asks for
/// nothing: at most a duplication, an activation of the ultimate scheme and
/// an activation of the high performance scheme are carried out.
pub proof fn lemma_desktop_strategy_ends(
    first_listing: Option<Seq<char>>,
    second_listing: Option<Seq<char>>,
    third_listing: Option<Seq<char>>,
    fourth_listing: Option<Seq<char>>,
    first_outcome: bool,
    second_outcome: bool,
    third_outcome: bool,
)
    ensures
        ({
            let first = high_performance_effects(first_listing);
            let second = follow_up_effects(first[0], first_outcome, second_listing);
            &&& first.len() == 1
            &&& second.len() <= 1
            &&& second.len() == 1 ==> {
                let third = follow_up_effects(second[0], second_outcome, third_listing);
                &&& third.len() <= 1
                &&& third.len() == 1 ==> third[0] == activate(GUID_HIGH_PERFORMANCE)
                    && follow_up_effects(third[0], third_outcome, fourth_listing).len() == 0
            }
        }),
{
}

} // verus!
