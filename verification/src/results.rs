//! Results returned by the deploy and evaluate collaborators.

use vstd::prelude::*;

verus! {

/// Data transfer object for an error returned by a collaborator.
#[derive(Debug)]
pub struct ErrorDto {
    /// Error details.
    pub details: String,
}

impl View for ErrorDto {
    type V = Seq<char>;

    open spec fn view(&self) -> Seq<char> {
        self.details@
    }
}

/// Data transfer object for a result returned by a collaborator: data on
/// success, errors on failure.
#[derive(Debug)]
pub struct ResultDto<T> {
    /// Result carrying data.
    pub data: Option<T>,
    /// Result carrying errors.
    pub errors: Option<Vec<ErrorDto>>,
}

/// The details of each error, element by element.
pub open spec fn details_view(s: Seq<ErrorDto>) -> Seq<Seq<char>>
    decreases s,
{
    if s.len() == 0 {
        Seq::empty()
    } else {
        details_view(s.drop_last()).push(s.last()@)
    }
}

/// `details_view` keeps the length and models each element in place.
pub broadcast proof fn lemma_details_view(s: Seq<ErrorDto>)
    ensures
        (#[trigger] details_view(s)).len() == s.len(),
        forall|i: int| 0 <= i < s.len() ==> details_view(s)[i] == s[i]@,
    decreases s,
{
    if s.len() > 0 {
        lemma_details_view(s.drop_last());
    }
}

/// The pieces of `s` joined with a comma and a space between every two.
pub open spec fn spec_joined(s: Seq<Seq<char>>) -> Seq<char>
    decreases s,
{
    if s.len() == 0 {
        Seq::empty()
    } else if s.len() == 1 {
        s[0]
    } else {
        spec_joined(s.drop_last()) + ", "@ + s.last()
    }
}

impl<T> ResultDto<T> {
    /// Returns the details of all errors of this result, joined with
    /// `, `; the empty string when there are no errors.
    #[verifier::loop_isolation(false)]
    pub fn errors_as_string(&self) -> (r: String)
        ensures
            r@ == match self.errors {
                Some(es) => spec_joined(details_view(es@)),
                None => Seq::<char>::empty(),
            },
    {
        let mut out = String::new();
        match &self.errors {
            Some(es) => {
                proof {
                    lemma_details_view(es@);
                }
                let ghost full = details_view(es@);
                let n = es.len();
                for i in 0..n
                    invariant
                        n == es@.len(),
                        full == details_view(es@),
                        full.len() == n,
                        out@ == spec_joined(full.subrange(0, i as int)),
                {
                    proof {
                        assert(full.subrange(0, i + 1).drop_last() =~= full.subrange(
                            0,
                            i as int,
                        ));
                        assert(full.subrange(0, i + 1).last() == full[i as int]);
                    }
                    if i > 0 {
                        out.append(", ");
                    }
                    out.append(es[i].details.as_str());
                    proof {
                        if i == 0 {
                            assert(out@ =~= full[0]);
                        }
                    }
                }
                proof {
                    assert(full.subrange(0, n as int) =~= full);
                }
                out
            },
            None => out,
        }
    }
}

/// Result received after a successful model deployment.
#[derive(Debug)]
pub struct DeployResult {
    /// Unique name of the deployed model.
    pub name: Option<String>,
    /// Unique identifier of the deployed model.
    pub id: Option<String>,
    /// Unique tag associated with the deployed model.
    pub tag: Option<String>,
}

} // verus!
