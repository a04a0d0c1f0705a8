use crate::corpus::Testcase;
use crate::error::Error;
use crate::state::FuzzMetadata;
use vstd::prelude::*;

verus! {

/// Names an admitted testcase's file with a caller-supplied function of the fuzzer state
/// and the testcase. Never interesting
/// by itself; combine it with an "or" so that it runs on every admission.
pub struct CustomTestcaseFilenameFeedback<F> {
    func: F,
}

impl<F: Fn(&FuzzMetadata, &Testcase) -> Result<String, Error>> CustomTestcaseFilenameFeedback<F> {
    pub closed spec fn func_spec(&self) -> F {
        self.func
    }

    pub fn new(func: F) -> (r: Self)
        ensures
            r.func_spec() == func,
    {
        CustomTestcaseFilenameFeedback { func }
    }

    pub fn name(&self) -> (r: &'static str)
        ensures
            r@ == "CustomTestcaseFilenameFeedback"@,
    {
        "CustomTestcaseFilenameFeedback"
    }

    pub fn is_interesting(&mut self) -> (r: Result<bool, Error>)
        ensures
            r == Ok::<bool, Error>(false),
            final(self).func_spec() == old(self).func_spec(),
    {
        Ok(false)
    }

    /// Gives `testcase` the filename that the function returns for it, or leaves it
    /// alone and passes the function's error on.
    pub fn append_metadata(&mut self, state: &FuzzMetadata, testcase: &mut Testcase) -> (r: Result<(), Error>)
        requires
            old(self).func_spec().requires((state, &*old(testcase))),
        ensures
            final(self).func_spec() == old(self).func_spec(),
            match r {
                Ok(()) => exists|name: String|
                    #![trigger old(self).func_spec().ensures((state, &*old(testcase)), Ok::<String, Error>(name))]
                    old(self).func_spec().ensures((state, &*old(testcase)), Ok::<String, Error>(name))
                        && *final(testcase) == (Testcase { filename: Some(name), ..*old(testcase) }),
                Err(e) => old(self).func_spec().ensures((state, &*old(testcase)), Err::<String, Error>(e))
                    && *final(testcase) == *old(testcase),
            },
    {
        match (self.func)(state, testcase) {
            Ok(name) => {
                testcase.filename = Some(name);
                Ok(())
            },
            Err(e) => Err(e),
        }
    }

    pub fn last_result(&self) -> (r: Result<bool, Error>)
        ensures
            r == Ok::<bool, Error>(false),
    {
        Ok(false)
    }
}

} // verus!
