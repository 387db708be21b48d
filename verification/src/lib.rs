pub mod agent;
pub mod cases;
pub mod results;
pub mod shuttle;
pub mod test_result;
