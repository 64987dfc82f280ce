use vstd::prelude::*;

verus! {

/// The PIX charge a gateway issued. `expires_at` is a UTC instant, in whole
/// seconds since the Unix epoch.
#[derive(Debug)]
pub struct PixData {
    pub qr_code: String,
    pub qr_code_base64: Option<String>,
    pub qr_code_url: Option<String>,
    pub expires_at: i64,
}

} // verus!
