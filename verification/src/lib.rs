pub mod clock;
pub mod entities;
pub mod queries;
pub mod sqlite;
pub mod submit_isrcs;
pub mod text;
pub mod track_repository;
