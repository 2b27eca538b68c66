//! The keeper of the render callback: at most one is registered at a time,
//! and a callback is released when it is replaced or freed.

use vstd::prelude::*;
use crate::buffer::Buffer;
use crate::error::Error;
use crate::format::StreamFormat;

verus! {

/// The side of an audio unit that keeps its render callback.
///
/// `C` is what owns a registered callback: the engine only holds a handle
/// to it, and dropping the `C` releases the callback.
pub struct AudioUnit<C> {
    maybe_callback: Option<C>,
}

/// How a registration ends, given what the engine answered when it was
/// asked for its stream format and, where it was asked, when it was told to
/// install the callback. A format that the buffer type `B` cannot view ends
/// the registration before the engine is told anything.
pub open spec fn registration<'a, B: Buffer<'a>>(
    queried: Result<StreamFormat, Error>,
    installed: Result<(), Error>,
) -> Result<(), Error> {
    match queried {
        Err(e) => Err(e),
        Ok(format) => if B::format_matches(format) {
            installed
        } else {
            Err(Error::RenderCallbackBufferFormatDoesNotMatchAudioUnitStreamFormat)
        },
    }
}

/// Decides whether a callback with buffer type `B` can be registered on an
/// engine whose stream format is `format`.
pub fn check_stream_format<'a, B: Buffer<'a>>(format: &StreamFormat) -> (result: Result<(), Error>)
    ensures
        result == registration::<B>(Ok(*format), Ok(())),
{
    if B::does_stream_format_match(format) {
        Ok(())
    } else {
        Err(Error::RenderCallbackBufferFormatDoesNotMatchAudioUnitStreamFormat)
    }
}

/// Whether `queried` and `installed` are answers that the engine can have
/// given while `callback` was being registered: `queried` to the question
/// for its stream format, and `installed`, if `B` can view that format, to
/// the request to install `callback`.
pub open spec fn answered<'a, B, C, Q, I>(
    callback: C,
    stream_format: Q,
    install: I,
    queried: Result<StreamFormat, Error>,
    installed: Result<(), Error>,
) -> bool where
    B: Buffer<'a>,
    Q: FnOnce() -> Result<StreamFormat, Error>,
    I: FnOnce(&C) -> Result<(), Error>,
 {
    &&& call_ensures(stream_format, (), queried)
    &&& registration::<B>(queried, Ok(())) is Ok ==> call_ensures(
        install,
        (&callback,),
        installed,
    )
}

impl<C> AudioUnit<C> {
    /// The callback that is registered, if one is.
    pub closed spec fn callback(&self) -> Option<C> {
        self.maybe_callback
    }

    /// A unit without a render callback.
    pub fn new() -> (unit: Self)
        ensures
            unit.callback() is None,
    {
        AudioUnit { maybe_callback: None }
    }

    /// The callback that is registered, if one is.
    pub fn render_callback(&self) -> (callback: Option<&C>)
        ensures
            match callback {
                Some(c) => self.callback() == Some(*c),
                None => self.callback() is None,
            },
    {
        self.maybe_callback.as_ref()
    }

    /// Takes the registered callback out of the unit, unreleased. The
    /// engine must no longer hold a handle to it.
    pub fn take_render_callback(&mut self) -> (callback: Option<C>)
        ensures
            callback == old(self).callback(),
            final(self).callback() is None,
    {
        self.maybe_callback.take()
    }

    /// Puts `callback` in the place of the registered one, which is handed
    /// back unreleased. The engine must already hold `callback`.
    pub fn replace_render_callback(&mut self, callback: C) -> (previous: Option<C>)
        ensures
            previous == old(self).callback(),
            final(self).callback() == Some(callback),
    {
        let previous = self.maybe_callback.take();
        self.maybe_callback = Some(callback);
        previous
    }

    /// Releases the registered callback. Without one, nothing happens.
    pub fn free_render_callback(&mut self)
        ensures
            final(self).callback() is None,
            old(self).callback() is None ==> *final(self) == *old(self),
    {
        let _released = self.take_render_callback();
    }

    /// Registers `callback`, which takes buffers of type `B`.
    ///
    /// The engine is asked for its stream format by `stream_format`. If `B`
    /// can view it, the engine is told by `install` to call `callback` from
    /// now on; only when it has accepted is the callback that was registered
    /// before released. On any error the unit is as it was, and `callback`
    /// is released without having been installed.
    pub fn set_render_callback<'a, B, Q, I>(
        &mut self,
        callback: C,
        stream_format: Q,
        install: I,
    ) -> (result: Result<(), Error>) where
        B: Buffer<'a>,
        Q: FnOnce() -> Result<StreamFormat, Error>,
        I: FnOnce(&C) -> Result<(), Error>,

        requires
            call_requires(stream_format, ()),
            call_requires(install, (&callback,)),
        ensures
            exists|queried: Result<StreamFormat, Error>, installed: Result<(), Error>|
                #[trigger] answered::<B, C, Q, I>(
                    callback,
                    stream_format,
                    install,
                    queried,
                    installed,
                ) && result == registration::<B>(queried, installed),
            result is Ok ==> final(self).callback() == Some(callback),
            result is Err ==> final(self).callback() == old(self).callback(),
    {
        let queried = stream_format();
        let format = match queried {
            Ok(format) => format,
            Err(e) => {
                assert(answered::<B, C, Q, I>(callback, stream_format, install, queried, Ok(())));
                return Err(e);
            },
        };
        match check_stream_format::<B>(&format) {
            Ok(_) => {},
            Err(e) => {
                assert(answered::<B, C, Q, I>(callback, stream_format, install, queried, Ok(())));
                return Err(e);
            },
        }
        let installed = install(&callback);
        assert(answered::<B, C, Q, I>(callback, stream_format, install, queried, installed));
        if installed.is_ok() {
            let _released = self.replace_render_callback(callback);
        }
        installed
    }
}

} // verus!
