use vstd::prelude::*;

verus! {

// Messages
pub const MESSAGE_OK: &'static str = "ok";
pub const MESSAGE_CAN_NOT_FETCH_DATA: &'static str = "Can not fetch data";
pub const MESSAGE_CAN_NOT_INSERT_DATA: &'static str = "Can not insert data";
pub const MESSAGE_CAN_NOT_UPDATE_DATA: &'static str = "Can not update data";
pub const MESSAGE_CAN_NOT_DELETE_DATA: &'static str = "Can not delete data";
pub const MESSAGE_SIGNUP_SUCCESS: &'static str = "Signup successfully";
pub const MESSAGE_SIGNUP_FAILED: &'static str = "Error while signing up, please try again";
pub const MESSAGE_LOGIN_SUCCESS: &'static str = "Login successfully";
pub const MESSAGE_LOGIN_FAILED: &'static str = "Wrong username or password, please try again";
pub const MESSAGE_USER_NOT_FOUND: &'static str = "User not found, please signup";
pub const MESSAGE_LOGOUT_SUCCESS: &'static str = "Logout successfully";
pub const MESSAGE_PROCESS_TOKEN_ERROR: &'static str = "Error while processing token";
pub const MESSAGE_INVALID_TOKEN: &'static str = "Invalid token, please login again";
pub const MESSAGE_INTERNAL_SERVER_ERROR: &'static str = "Internal Server Error";
pub const MESSAGE_TOKEN_MISSING: &'static str = "Token is missing";
pub const MESSAGE_USERNAME_EXISTS: &'static str = "Username already exists";

// Headers
pub const AUTHORIZATION: &'static str = "Authorization";

// Misc
pub const EMPTY: &'static str = "";

// Routes that pass the authentication middleware without a token
pub const IGNORE_ROUTES: [&'static str; 3] = ["/api/ping", "/api/auth/signup", "/api/auth/login"];

// HTTP status codes used by the services
pub const STATUS_OK: u16 = 200;
pub const STATUS_CREATED: u16 = 201;
pub const STATUS_BAD_REQUEST: u16 = 400;
pub const STATUS_UNAUTHORIZED: u16 = 401;
pub const STATUS_NOT_FOUND: u16 = 404;
pub const STATUS_INTERNAL_SERVER_ERROR: u16 = 500;

} // verus!
