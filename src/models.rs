use crate::date::Date;
use vstd::prelude::*;

verus! {

/// A vehicle and its customer, as read from one row of an uploaded file.
#[derive(Clone, Debug)]
pub struct Vehicle {
    pub upload_id: i32,
    pub dealer_id: i32,
    pub vin: String,
    pub warranty_exp_date: Option<Date>,
    pub customer_name: String,
    pub customer_phone: String,
    pub customer_email: Option<String>,
    pub customer_zip: Option<String>,
    pub last_service_date: Option<Date>,
}

/// A vehicle as a client submits it, dates still as text.
#[derive(Clone, Debug)]
pub struct VehicleInput {
    pub vin: String,
    pub warranty_exp_date: Option<String>,
    pub customer_name: String,
    pub customer_phone: String,
    pub customer_email: Option<String>,
    pub customer_zip: Option<String>,
    pub last_service_date: Option<String>,
}

/// A request to open a dealer account.
#[derive(Clone, Debug)]
pub struct RegisterRequest {
    pub name: String,
    pub email: String,
    pub password: String,
    pub zip_code: Option<String>,
}

/// A dealer's sign-in request.
#[derive(Clone, Debug)]
pub struct LoginRequest {
    pub email: String,
    pub password: String,
}

/// The envelope of every answer to a client: the data on success, a message
/// on failure.
#[derive(Clone, Debug)]
pub struct ApiResponse<T> {
    pub success: bool,
    pub data: Option<T>,
    pub error: Option<String>,
}

impl<T> ApiResponse<T> {
    pub fn success(data: T) -> (r: Self)
        ensures
            r.success,
            r.data == Some(data),
            r.error is None,
    {
        ApiResponse { success: true, data: Some(data), error: None }
    }

    pub fn error(message: String) -> (r: ApiResponse<()>)
        ensures
            !r.success,
            r.data is None,
            r.error == Some(message),
    {
        ApiResponse { success: false, data: None, error: Some(message) }
    }
}

} // verus!
