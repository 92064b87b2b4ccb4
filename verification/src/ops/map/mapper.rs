use vstd::prelude::*;

verus! {

/// Thin wrapper around [mapper function](self::MapFn).
///
/// Pass this struct into [`MapList::map()`](super::MapList::map) to map with
/// one object that has a mapper function for the type of every element.
pub struct Mapper<T>(pub T);

/// Implementation of mapper function for specified input and output types.
///
/// An implementor says with `map_fn_requires` which inputs its function
/// takes, and with `map_fn_ensures` what it may return for an input and in
/// which state it may leave the implementor. One that says neither takes
/// every input and promises nothing of what it returns.
pub trait MapFn<Input> {
    /// Type of transformed input value.
    type Output;

    /// Whether the mapper function may be called with `input`.
    open spec fn map_fn_requires(&self, input: Input) -> bool {
        true
    }

    /// Whether the mapper function, called with `input`, may return `output`
    /// and leave the mapper as `after`.
    open spec fn map_fn_ensures(&self, input: Input, after: &Self, output: Self::Output) -> bool {
        true
    }

    /// Transforms input value into output value.
    fn map(&mut self, input: Input) -> (output: Self::Output)
        requires
            old(self).map_fn_requires(input),
        ensures
            old(self).map_fn_ensures(input, final(self), output),
    ;
}

impl<Input, Output, F> MapFn<Input> for Mapper<F> where F: MapFn<Input, Output = Output> {
    type Output = Output;

    open spec fn map_fn_requires(&self, input: Input) -> bool {
        self.0.map_fn_requires(input)
    }

    open spec fn map_fn_ensures(&self, input: Input, after: &Self, output: Output) -> bool {
        self.0.map_fn_ensures(input, &after.0, output)
    }

    fn map(&mut self, input: Input) -> (output: Output) {
        self.0.map(input)
    }
}

impl<Input, Output, F> MapFn<Input> for &mut F where F: MapFn<Input, Output = Output> {
    type Output = Output;

    open spec fn map_fn_requires(&self, input: Input) -> bool {
        (**self).map_fn_requires(input)
    }

    open spec fn map_fn_ensures(&self, input: Input, after: &Self, output: Output) -> bool {
        (**self).map_fn_ensures(input, &**after, output)
    }

    fn map(&mut self, input: Input) -> (output: Output) {
        (**self).map(input)
    }
}

} // verus!
