//! Grab options and the shim call that starts grabbing with them.

use vstd::prelude::*;

verus! {

/// How timeout conditions are reported by grab operations.
#[derive(Clone, Copy, Debug, PartialEq, Eq, Structural)]
pub enum TimeoutHandling {
    /// Return `Ok(false)` when the timeout expires.
    Return,
    /// Convert the timeout into an error reported by Pylon.
    ThrowException,
}

/// The C integer by which the shim knows each timeout handling mode.
pub open spec fn timeout_handling_code(t: TimeoutHandling) -> i32 {
    match t {
        TimeoutHandling::Return => 0,
        TimeoutHandling::ThrowException => 1,
    }
}

impl TimeoutHandling {
    /// The C integer passed to the shim for this mode.
    pub fn code(&self) -> (r: i32)
        ensures
            r == timeout_handling_code(*self),
    {
        match self {
            TimeoutHandling::Return => 0,
            TimeoutHandling::ThrowException => 1,
        }
    }
}

/// Buffer handling strategy used while grabbing.
#[derive(Clone, Copy, Debug, PartialEq, Eq, Structural)]
pub enum GrabStrategy {
    /// Deliver every image in order.
    OneByOne,
    /// Keep only the most recent image.
    LatestImageOnly,
    /// Keep a rolling set of recent images.
    LatestImages,
    /// Wait for the next image that arrives after the call.
    UpcomingImage,
}

/// The C integer by which the shim knows each grab strategy.
pub open spec fn grab_strategy_code(s: GrabStrategy) -> i32 {
    match s {
        GrabStrategy::OneByOne => 0,
        GrabStrategy::LatestImageOnly => 1,
        GrabStrategy::LatestImages => 2,
        GrabStrategy::UpcomingImage => 3,
    }
}

impl GrabStrategy {
    /// The C integer passed to the shim for this strategy.
    pub fn code(&self) -> (r: i32)
        ensures
            r == grab_strategy_code(*self),
    {
        match self {
            GrabStrategy::OneByOne => 0,
            GrabStrategy::LatestImageOnly => 1,
            GrabStrategy::LatestImages => 2,
            GrabStrategy::UpcomingImage => 3,
        }
    }
}

/// Distinct timeout handling modes reach the shim as distinct integers.
pub proof fn lemma_timeout_codes_distinct(a: TimeoutHandling, b: TimeoutHandling)
    requires
        a != b,
    ensures
        timeout_handling_code(a) != timeout_handling_code(b),
{
}

/// Distinct grab strategies reach the shim as distinct integers.
pub proof fn lemma_strategy_codes_distinct(a: GrabStrategy, b: GrabStrategy)
    requires
        a != b,
    ensures
        grab_strategy_code(a) != grab_strategy_code(b),
{
}

/// What a set of grab options holds: an optional image count and an
/// optional strategy.
pub struct GrabOptionsView {
    pub count: Option<u32>,
    pub strategy: Option<GrabStrategy>,
}

impl GrabOptionsView {
    /// The options with the image count set to `count`.
    pub open spec fn with_count(self, count: u32) -> GrabOptionsView {
        GrabOptionsView { count: Some(count), strategy: self.strategy }
    }

    /// The options with the strategy set to `strategy`.
    pub open spec fn with_strategy(self, strategy: GrabStrategy) -> GrabOptionsView {
        GrabOptionsView { count: self.count, strategy: Some(strategy) }
    }
}

/// Options passed when grabbing starts.
pub struct GrabOptions {
    count: Option<u32>,
    strategy: Option<GrabStrategy>,
}

impl View for GrabOptions {
    type V = GrabOptionsView;

    closed spec fn view(&self) -> GrabOptionsView {
        GrabOptionsView { count: self.count, strategy: self.strategy }
    }
}

impl Default for GrabOptions {
    fn default() -> (r: GrabOptions)
        ensures
            r@ == (GrabOptionsView { count: None, strategy: None }),
    {
        GrabOptions { count: None, strategy: None }
    }
}

/// The shim function that starts grabbing, with its arguments beyond the camera.
#[derive(Clone, Copy, Debug, PartialEq, Eq, Structural)]
pub enum GrabStart {
    /// Grab continuously with the default strategy.
    Plain,
    /// Grab the given number of images.
    WithCount(u32),
    /// Grab continuously with the strategy of the given code.
    WithStrategy(i32),
    /// Grab the given number of images with the strategy of the given code.
    WithCountAndStrategy(u32, i32),
}

/// The shim call that starts grabbing with options `o`.
pub open spec fn grab_start_for(o: GrabOptionsView) -> GrabStart {
    match (o.count, o.strategy) {
        (Some(c), Some(s)) => GrabStart::WithCountAndStrategy(c, grab_strategy_code(s)),
        (Some(c), None) => GrabStart::WithCount(c),
        (None, Some(s)) => GrabStart::WithStrategy(grab_strategy_code(s)),
        (None, None) => GrabStart::Plain,
    }
}

impl GrabOptions {
    /// Limits the grab to a fixed number of images.
    pub fn count(self, count: u32) -> (r: GrabOptions)
        ensures
            r@ == self@.with_count(count),
            r@.count == Some(count),
            r@.strategy == self@.strategy,
    {
        GrabOptions { count: Some(count), ..self }
    }

    /// Selects the buffer handling strategy.
    pub fn strategy(self, strategy: GrabStrategy) -> (r: GrabOptions)
        ensures
            r@ == self@.with_strategy(strategy),
            r@.strategy == Some(strategy),
            r@.count == self@.count,
    {
        GrabOptions { strategy: Some(strategy), ..self }
    }

    /// The shim call that starts grabbing with these options: the count and
    /// the strategy's code are passed exactly when they are set.
    pub fn start_call(&self) -> (r: GrabStart)
        ensures
            r == grab_start_for(self@),
    {
        match (self.count, self.strategy) {
            (Some(count), Some(strategy)) => GrabStart::WithCountAndStrategy(count, strategy.code()),
            (Some(count), None) => GrabStart::WithCount(count),
            (None, Some(strategy)) => GrabStart::WithStrategy(strategy.code()),
            (None, None) => GrabStart::Plain,
        }
    }
}

/// Setting a count records exactly that count and leaves the strategy alone;
/// setting a strategy records exactly that strategy and leaves the count alone.
pub proof fn lemma_setting_records_exactly(o: GrabOptionsView, count: u32, strategy: GrabStrategy)
    ensures
        o.with_count(count).count == Some(count),
        o.with_count(count).strategy == o.strategy,
        o.with_strategy(strategy).strategy == Some(strategy),
        o.with_strategy(strategy).count == o.count,
{
}

/// The C codes of the strategies and timeout modes are those of the shim's
/// ABI: the strategies in declaration order from zero, `Return` zero and
/// `ThrowException` one.
pub proof fn lemma_codes_match_the_abi()
    ensures
        grab_strategy_code(GrabStrategy::OneByOne) == 0,
        grab_strategy_code(GrabStrategy::LatestImageOnly) == 1,
        grab_strategy_code(GrabStrategy::LatestImages) == 2,
        grab_strategy_code(GrabStrategy::UpcomingImage) == 3,
        timeout_handling_code(TimeoutHandling::Return) == 0,
        timeout_handling_code(TimeoutHandling::ThrowException) == 1,
{
}

/// Starting from the default options, a chosen count alone starts grabbing
/// with exactly that count, a chosen strategy alone with exactly that
/// strategy's code, and both together with both.
pub proof fn lemma_chosen_options_reach_the_shim(count: u32, strategy: GrabStrategy)
    ensures
        grab_start_for(GrabOptionsView { count: None, strategy: None }.with_count(count))
            == GrabStart::WithCount(count),
        grab_start_for(GrabOptionsView { count: None, strategy: None }.with_strategy(strategy))
            == GrabStart::WithStrategy(grab_strategy_code(strategy)),
        grab_start_for(GrabOptionsView { count: None, strategy: None }.with_count(count).with_strategy(strategy))
            == GrabStart::WithCountAndStrategy(count, grab_strategy_code(strategy)),
        grab_start_for(GrabOptionsView { count: None, strategy: None }) == GrabStart::Plain,
{
}

/// Setting the count and setting the strategy do not interfere: either
/// order gives the same options.
pub proof fn lemma_builders_commute(o: GrabOptionsView, count: u32, strategy: GrabStrategy)
    ensures
        o.with_count(count).with_strategy(strategy) == o.with_strategy(strategy).with_count(count),
{
}

/// A later count replaces an earlier one, and a later strategy an earlier one.
pub proof fn lemma_last_setting_wins(o: GrabOptionsView, c1: u32, c2: u32, s1: GrabStrategy, s2: GrabStrategy)
    ensures
        o.with_count(c1).with_count(c2) == o.with_count(c2),
        o.with_strategy(s1).with_strategy(s2) == o.with_strategy(s2),
{
}

/// The call that starts grabbing passes on exactly what was set: the count
/// when one was set, and the code of the strategy when one was set.
pub proof fn lemma_start_call_carries_settings(o: GrabOptionsView)
    ensures
        (grab_start_for(o) matches GrabStart::WithCount(c) ==> o.count == Some(c) && o.strategy is None),
        (grab_start_for(o) matches GrabStart::WithCountAndStrategy(c, k) ==> (o.count == Some(c)
            && (o.strategy matches Some(s) && grab_strategy_code(s) == k))),
        (grab_start_for(o) matches GrabStart::WithStrategy(k) ==> (o.count is None
            && (o.strategy matches Some(s) && grab_strategy_code(s) == k))),
        (grab_start_for(o) == GrabStart::Plain <==> (o.count is None && o.strategy is None)),
{
}

}
