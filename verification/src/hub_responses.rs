use vstd::prelude::*;

verus! {

/// What the registry reports of an identity that it created.
pub struct CreateResponse {
    pub device_id: String,
}

/// The model of a [`CreateResponse`].
pub struct CreatedIdentity {
    pub device_id: Seq<char>,
}

impl View for CreateResponse {
    type V = CreatedIdentity;

    open spec fn view(&self) -> CreatedIdentity {
        CreatedIdentity { device_id: self.device_id@ }
    }
}

impl DeepView for CreateResponse {
    type V = CreatedIdentity;

    open spec fn deep_view(&self) -> CreatedIdentity {
        self@
    }
}

impl Clone for CreateResponse {
    fn clone(&self) -> (copy: Self)
        ensures
            copy@ == self@,
    {
        CreateResponse { device_id: self.device_id.clone() }
    }
}

} // verus!
