//! One module per resource of the transit service.

pub mod calendar_dates;
pub mod routes;
pub mod shapes;
pub mod stops;
