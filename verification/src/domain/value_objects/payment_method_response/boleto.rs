use vstd::prelude::*;

verus! {

/// The boleto a gateway issued. `expires_at` is a UTC instant, in whole
/// seconds since the Unix epoch.
#[derive(Debug)]
pub struct BoletoData {
    pub barcode: String,
    pub digitable_line: String,
    pub pdf_url: Option<String>,
    pub expires_at: i64,
}

} // verus!
