//! What writing one row may report.

use vstd::prelude::*;

use crate::error::{VortexError, VortexResult};
use crate::scalar_fn::vtable;

verus! {

/// A failure bit reduced across a whole row loop and reported at its end.
///
/// It never ends the loop: every row can write a provisional value.
#[derive(Clone, Copy, PartialEq, Eq, Structural, Debug)]
pub struct DeferredError(bool);

impl DeferredError {
    /// Whether any accumulated row failed.
    pub closed spec fn failed(self) -> bool {
        self.0
    }

    /// Record whether a row failed.
    pub fn new(failed: bool) -> (out: Self)
        ensures
            out.failed() == failed,
    {
        DeferredError(failed)
    }

    /// Whether any row accumulated into this value failed.
    pub fn occurred(self) -> (out: bool)
        ensures
            out == self.failed(),
    {
        self.0
    }
}

impl Default for DeferredError {
    fn default() -> (out: Self)
        ensures
            !out.failed(),
    {
        DeferredError(false)
    }
}

impl std::ops::BitOrAssign for DeferredError {
    fn bitor_assign(&mut self, rhs: Self)
        ensures
            final(self).failed() == (old(self).failed() || rhs.failed()),
    {
        self.0 = self.0 || rhs.0;
    }
}

/// A failure bit is the default exactly where no row failed, so that comparing it with the default
/// tells whether one did.
pub proof fn only_unfailed_errors_are_the_default(error: DeferredError, default: DeferredError)
    requires
        !default.failed(),
    ensures
        (error == default) == !error.failed(),
{
}

/// Result types that a row may report by.
pub trait Sealed {

}

/// The outcome of writing one row: success, an immediate error, or a bit of evidence that is
/// reduced over the batch.
pub trait SinkResult: Sealed + Sized {
    /// The word that outcomes reduce into.
    type Accumulated;

    /// Whether this outcome can carry an immediate error.
    const FALLIBLE: bool;

    /// Whether this outcome defers its failure to the end of the batch.
    const DEFERRED: bool;

    /// What [`FALLIBLE`](Self::FALLIBLE) is.
    spec fn fallible() -> bool;

    /// What [`DEFERRED`](Self::DEFERRED) is.
    spec fn deferrable() -> bool;

    /// The constants are what they are said to be.
    proof fn constants_hold()
        ensures
            Self::FALLIBLE == Self::fallible(),
            Self::DEFERRED == Self::deferrable(),
    ;

    /// The immediate error, if there is one.
    spec fn immediate(self) -> Result<(), Seq<char>>;

    /// This row failed, and reports it at the end of the batch.
    spec fn deferred(self) -> bool;

    /// Some reduced row failed.
    spec fn failure(accumulated: Self::Accumulated) -> bool;

    /// Nothing reduced.
    fn start() -> (out: Self::Accumulated)
        ensures
            !Self::failure(out),
    ;

    /// Merge this row's outcome into the reduction.
    fn accumulate(self, accumulated: &mut Self::Accumulated) -> (out: VortexResult<()>)
        ensures
            vtable::unit_outcome(out) == self.immediate(),
            Self::failure(*final(accumulated)) == (Self::failure(*old(accumulated))
                || self.deferred()),
    ;

    /// Whether the finished reduction means that some row failed.
    fn occurred(accumulated: &Self::Accumulated) -> (out: bool)
        ensures
            out == Self::failure(*accumulated),
    ;
}

impl Sealed for () {

}

impl SinkResult for () {
    type Accumulated = ();

    const FALLIBLE: bool = false;

    const DEFERRED: bool = false;

    open spec fn fallible() -> bool {
        false
    }

    open spec fn deferrable() -> bool {
        false
    }

    proof fn constants_hold() {
    }

    open spec fn immediate(self) -> Result<(), Seq<char>> {
        Ok(())
    }

    open spec fn deferred(self) -> bool {
        false
    }

    open spec fn failure(accumulated: ()) -> bool {
        false
    }

    fn start() -> (out: ()) {
    }

    fn accumulate(self, accumulated: &mut ()) -> (out: VortexResult<()>) {
        Ok(())
    }

    fn occurred(accumulated: &()) -> (out: bool) {
        false
    }
}

impl Sealed for Result<(), VortexError> {

}

impl SinkResult for Result<(), VortexError> {
    type Accumulated = ();

    const FALLIBLE: bool = true;

    const DEFERRED: bool = false;

    open spec fn fallible() -> bool {
        true
    }

    open spec fn deferrable() -> bool {
        false
    }

    proof fn constants_hold() {
    }

    open spec fn immediate(self) -> Result<(), Seq<char>> {
        vtable::unit_outcome(self)
    }

    open spec fn deferred(self) -> bool {
        false
    }

    open spec fn failure(accumulated: ()) -> bool {
        false
    }

    fn start() -> (out: ()) {
    }

    fn accumulate(self, accumulated: &mut ()) -> (out: VortexResult<()>) {
        self
    }

    fn occurred(accumulated: &()) -> (out: bool) {
        false
    }
}

impl Sealed for DeferredError {

}

impl SinkResult for DeferredError {
    type Accumulated = DeferredError;

    const FALLIBLE: bool = false;

    const DEFERRED: bool = true;

    open spec fn fallible() -> bool {
        false
    }

    open spec fn deferrable() -> bool {
        true
    }

    proof fn constants_hold() {
    }

    open spec fn immediate(self) -> Result<(), Seq<char>> {
        Ok(())
    }

    open spec fn deferred(self) -> bool {
        self.failed()
    }

    open spec fn failure(accumulated: DeferredError) -> bool {
        accumulated.failed()
    }

    fn start() -> (out: DeferredError) {
        DeferredError::new(false)
    }

    fn accumulate(self, accumulated: &mut DeferredError) -> (out: VortexResult<()>) {
        *accumulated = DeferredError::new(accumulated.occurred() || self.occurred());
        Ok(())
    }

    fn occurred(accumulated: &DeferredError) -> (out: bool) {
        accumulated.occurred()
    }
}

impl Sealed for bool {

}

impl SinkResult for bool {
    type Accumulated = bool;

    const FALLIBLE: bool = false;

    const DEFERRED: bool = true;

    open spec fn fallible() -> bool {
        false
    }

    open spec fn deferrable() -> bool {
        true
    }

    proof fn constants_hold() {
    }

    open spec fn immediate(self) -> Result<(), Seq<char>> {
        Ok(())
    }

    open spec fn deferred(self) -> bool {
        self
    }

    open spec fn failure(accumulated: bool) -> bool {
        accumulated
    }

    fn start() -> (out: bool) {
        false
    }

    fn accumulate(self, accumulated: &mut bool) -> (out: VortexResult<()>) {
        *accumulated = *accumulated || self;
        Ok(())
    }

    fn occurred(accumulated: &bool) -> (out: bool) {
        *accumulated
    }
}

impl Sealed for u8 {

}

impl SinkResult for u8 {
    type Accumulated = u8;

    const FALLIBLE: bool = false;

    const DEFERRED: bool = true;

    open spec fn fallible() -> bool {
        false
    }

    open spec fn deferrable() -> bool {
        true
    }

    proof fn constants_hold() {
    }

    open spec fn immediate(self) -> Result<(), Seq<char>> {
        Ok(())
    }

    open spec fn deferred(self) -> bool {
        self != 0
    }

    open spec fn failure(accumulated: u8) -> bool {
        accumulated != 0
    }

    fn start() -> (out: u8) {
        0
    }

    fn accumulate(self, accumulated: &mut u8) -> (out: VortexResult<()>) {
        let before = *accumulated;
        *accumulated = before | self;
        assert((before | self != 0) == (before != 0 || self != 0)) by (bit_vector);
        Ok(())
    }

    fn occurred(accumulated: &u8) -> (out: bool) {
        *accumulated != 0
    }
}

impl Sealed for u16 {

}

impl SinkResult for u16 {
    type Accumulated = u16;

    const FALLIBLE: bool = false;

    const DEFERRED: bool = true;

    open spec fn fallible() -> bool {
        false
    }

    open spec fn deferrable() -> bool {
        true
    }

    proof fn constants_hold() {
    }

    open spec fn immediate(self) -> Result<(), Seq<char>> {
        Ok(())
    }

    open spec fn deferred(self) -> bool {
        self != 0
    }

    open spec fn failure(accumulated: u16) -> bool {
        accumulated != 0
    }

    fn start() -> (out: u16) {
        0
    }

    fn accumulate(self, accumulated: &mut u16) -> (out: VortexResult<()>) {
        let before = *accumulated;
        *accumulated = before | self;
        assert((before | self != 0) == (before != 0 || self != 0)) by (bit_vector);
        Ok(())
    }

    fn occurred(accumulated: &u16) -> (out: bool) {
        *accumulated != 0
    }
}

impl Sealed for u32 {

}

impl SinkResult for u32 {
    type Accumulated = u32;

    const FALLIBLE: bool = false;

    const DEFERRED: bool = true;

    open spec fn fallible() -> bool {
        false
    }

    open spec fn deferrable() -> bool {
        true
    }

    proof fn constants_hold() {
    }

    open spec fn immediate(self) -> Result<(), Seq<char>> {
        Ok(())
    }

    open spec fn deferred(self) -> bool {
        self != 0
    }

    open spec fn failure(accumulated: u32) -> bool {
        accumulated != 0
    }

    fn start() -> (out: u32) {
        0
    }

    fn accumulate(self, accumulated: &mut u32) -> (out: VortexResult<()>) {
        let before = *accumulated;
        *accumulated = before | self;
        assert((before | self != 0) == (before != 0 || self != 0)) by (bit_vector);
        Ok(())
    }

    fn occurred(accumulated: &u32) -> (out: bool) {
        *accumulated != 0
    }
}

impl Sealed for u64 {

}

impl SinkResult for u64 {
    type Accumulated = u64;

    const FALLIBLE: bool = false;

    const DEFERRED: bool = true;

    open spec fn fallible() -> bool {
        false
    }

    open spec fn deferrable() -> bool {
        true
    }

    proof fn constants_hold() {
    }

    open spec fn immediate(self) -> Result<(), Seq<char>> {
        Ok(())
    }

    open spec fn deferred(self) -> bool {
        self != 0
    }

    open spec fn failure(accumulated: u64) -> bool {
        accumulated != 0
    }

    fn start() -> (out: u64) {
        0
    }

    fn accumulate(self, accumulated: &mut u64) -> (out: VortexResult<()>) {
        let before = *accumulated;
        *accumulated = before | self;
        assert((before | self != 0) == (before != 0 || self != 0)) by (bit_vector);
        Ok(())
    }

    fn occurred(accumulated: &u64) -> (out: bool) {
        *accumulated != 0
    }
}

} // verus!
