pub mod invoice;
