use vstd::prelude::*;
use vstd::string::StringSliceAdditionalSpecFns;

use crate::marshal::marshal_symbol;
use crate::marshal::marshallable;
use crate::marshal::marshalled;

verus! {

/// The sole error surfaced by buffer swapping: the underlying context was lost
/// and the frame could not be presented.
#[derive(Clone, Copy, Debug, PartialEq, Eq, Structural)]
pub enum SwapBuffersError {
    ContextLost,
}

/// Translates the raw boolean a swap callback reports into the result shape
/// the rendering interface expects: `true` is success, `false` is a lost
/// context.
pub fn swap_result_from(ok: bool) -> (r: Result<(), SwapBuffersError>)
    ensures
        ok <==> r is Ok,
        !ok ==> r == Err::<(), SwapBuffersError>(SwapBuffersError::ContextLost),
{
    if ok {
        Ok(())
    } else {
        Err(SwapBuffersError::ContextLost)
    }
}

/// How a swap result must relate to what the swap callback reported: success
/// exactly when the callback returned `true`, and a lost context, the one
/// error surfaced, exactly when it returned `false`.
pub open spec fn swap_outcome_matches<SB: Fn(usize) -> bool>(
    sb: SB,
    handle: usize,
    r: Result<(), SwapBuffersError>,
) -> bool {
    match r {
        Ok(_) => call_ensures(sb, (handle,), true),
        Err(e) => e == SwapBuffersError::ContextLost && call_ensures(sb, (handle,), false),
    }
}

/// An adapter that lets an externally owned graphics context, reached only
/// through an opaque handle and callbacks, serve as a rendering backend. The
/// adapter holds no state of its own beyond the handle and the callbacks:
/// every operation forwards to the matching callback with the handle as first
/// argument and translates its raw result.
///
/// The adapter never inspects the handle and never manages the context's
/// lifetime; whoever constructs the adapter must keep the context and the
/// callbacks valid for as long as the adapter lives.
pub struct CBackend<SB, GPA, GFD, IC, MC> {
    /// Opaque address-sized token for the external context, passed unchanged
    /// to every callback.
    pub data: usize,
    /// Reports whether presenting the back buffer succeeded.
    pub swap_buffers: SB,
    /// Resolves a nul-terminated symbol name to an address-sized value; zero
    /// means the symbol is not available.
    pub get_proc_address: GPA,
    /// Reports the framebuffer size as a (width, height) pair in pixels.
    pub get_framebuffer_dimensions: GFD,
    /// Reports whether the context is current on the calling thread.
    pub is_current: IC,
    /// Makes the context current on the calling thread; side effect only.
    pub make_current: MC,
}

impl<SB, GPA, GFD, IC, MC> CBackend<SB, GPA, GFD, IC, MC> where
    SB: Fn(usize) -> bool,
    GPA: Fn(usize, Vec<u8>) -> usize,
    GFD: Fn(usize) -> (u32, u32),
    IC: Fn(usize) -> bool,
    MC: Fn(usize),
 {
    /// Builds the adapter from the opaque handle and the five callbacks. The
    /// caller attests that the handle and the callbacks stay valid for the
    /// adapter's whole lifetime; nothing here can check that.
    pub fn new(
        data: usize,
        swap_buffers: SB,
        get_proc_address: GPA,
        get_framebuffer_dimensions: GFD,
        is_current: IC,
        make_current: MC,
    ) -> (r: Self)
        ensures
            r.data == data,
            r.swap_buffers == swap_buffers,
            r.get_proc_address == get_proc_address,
            r.get_framebuffer_dimensions == get_framebuffer_dimensions,
            r.is_current == is_current,
            r.make_current == make_current,
    {
        CBackend {
            data,
            swap_buffers,
            get_proc_address,
            get_framebuffer_dimensions,
            is_current,
            make_current,
        }
    }

    /// Presents the back buffer by asking the swap callback once: success when
    /// it reports `true`, the lost-context error when it reports `false`.
    pub fn swap_buffers(&self) -> (r: Result<(), SwapBuffersError>)
        requires
            call_requires(self.swap_buffers, (self.data,)),
        ensures
            swap_outcome_matches(self.swap_buffers, self.data, r),
    {
        swap_result_from((self.swap_buffers)(self.data))
    }

    /// Resolves a symbol name through the resolver callback. The name is first
    /// marshalled into the nul-terminated form the boundary requires; a name
    /// that cannot be marshalled resolves to zero without the callback being
    /// asked, since callers treat "not found" and "cannot resolve" alike. The
    /// value returned is otherwise exactly what the resolver reported, with no
    /// validation of its provenance: a caller who intends to jump to it as
    /// code carries that burden alone.
    pub fn get_proc_address(&self, symbol: &str) -> (r: usize)
        requires
            forall|v: Vec<u8>|
                v@ == marshalled(symbol.spec_bytes()) ==> call_requires(
                    self.get_proc_address,
                    (self.data, v),
                ),
        ensures
            !marshallable(symbol.spec_bytes()) ==> r == 0,
            marshallable(symbol.spec_bytes()) ==> exists|v: Vec<u8>|
                v@ == marshalled(symbol.spec_bytes()) && call_ensures(
                    self.get_proc_address,
                    (self.data, v),
                    r,
                ),
    {
        match marshal_symbol(symbol) {
            Some(name) => (self.get_proc_address)(self.data, name),
            None => 0,
        }
    }

    /// Reports the framebuffer size exactly as the size callback returned it.
    pub fn get_framebuffer_dimensions(&self) -> (r: (u32, u32))
        requires
            call_requires(self.get_framebuffer_dimensions, (self.data,)),
        ensures
            call_ensures(self.get_framebuffer_dimensions, (self.data,), r),
    {
        (self.get_framebuffer_dimensions)(self.data)
    }

    /// Reports whether the context is current, exactly as the callback
    /// answered on this very call: nothing is cached between calls.
    pub fn is_current(&self) -> (r: bool)
        requires
            call_requires(self.is_current, (self.data,)),
        ensures
            call_ensures(self.is_current, (self.data,), r),
    {
        (self.is_current)(self.data)
    }

    /// Makes the context current on the calling thread by invoking the
    /// callback once. Current-context status is per-thread state shared with
    /// everything else on the thread: the caller must uphold thread affinity
    /// and exclusivity.
    pub fn make_current(&self)
        requires
            call_requires(self.make_current, (self.data,)),
        ensures
            call_ensures(self.make_current, (self.data,), ()),
    {
        (self.make_current)(self.data)
    }
}

/// Law: whenever the swap callback can only report success, buffer swapping
/// returns success and signals no error.
pub proof fn lemma_swap_success_when_callback_true<SB: Fn(usize) -> bool>(
    sb: SB,
    handle: usize,
    r: Result<(), SwapBuffersError>,
)
    requires
        swap_outcome_matches(sb, handle, r),
        forall|b: bool| call_ensures(sb, (handle,), b) ==> b == true,
    ensures
        r is Ok,
{
}

/// Law: whenever the swap callback can only report failure, buffer swapping
/// returns the lost-context error, the one error it can surface.
pub proof fn lemma_swap_context_lost_when_callback_false<SB: Fn(usize) -> bool>(
    sb: SB,
    handle: usize,
    r: Result<(), SwapBuffersError>,
)
    requires
        swap_outcome_matches(sb, handle, r),
        forall|b: bool| call_ensures(sb, (handle,), b) ==> b == false,
    ensures
        r == Err::<(), SwapBuffersError>(SwapBuffersError::ContextLost),
{
}

/// Law: for a name that marshals, symbol resolution hands back exactly the
/// address the resolver callback reports for that name's marshalled form.
pub proof fn lemma_resolution_passed_through<GPA: Fn(usize, Vec<u8>) -> usize>(
    gpa: GPA,
    handle: usize,
    symbol_bytes: Seq<u8>,
    addr: usize,
    r: usize,
)
    requires
        marshallable(symbol_bytes),
        exists|v: Vec<u8>|
            v@ == marshalled(symbol_bytes) && call_ensures(gpa, (handle, v), r),
        forall|v: Vec<u8>, a: usize|
            v@ == marshalled(symbol_bytes) && call_ensures(gpa, (handle, v), a) ==> a == addr,
    ensures
        r == addr,
{
}

/// Law: the current-context test reflects exactly the boolean the callback
/// reports for that call; with nothing cached, two calls whose callback
/// answers differ must themselves differ.
pub proof fn lemma_is_current_reflects_callback<IC: Fn(usize) -> bool>(
    ic: IC,
    handle: usize,
    reported: bool,
    r: bool,
)
    requires
        call_ensures(ic, (handle,), r),
        forall|b: bool| call_ensures(ic, (handle,), b) ==> b == reported,
    ensures
        r == reported,
{
}

/// Law: a well-behaved size callback's (width, height) pair is handed back
/// unchanged by the size query.
pub proof fn lemma_dimensions_passed_through<GFD: Fn(usize) -> (u32, u32)>(
    gfd: GFD,
    handle: usize,
    size: (u32, u32),
    r: (u32, u32),
)
    requires
        call_ensures(gfd, (handle,), r),
        forall|p: (u32, u32)| call_ensures(gfd, (handle,), p) ==> p == size,
    ensures
        r == size,
{
}

} // verus!
