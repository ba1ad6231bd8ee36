pub mod breaker;
pub mod events;
pub mod laws;

pub use breaker::BreakerView;
pub use breaker::CallDecision;
pub use breaker::CircuitBreaker;
pub use breaker::CircuitBreakerState;
pub use events::BreakerEvent;
