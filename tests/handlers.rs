use bookstore::book::Book;
use bookstore::handlers::{add_book, delete_book, get_books, update_book, Status};
use bookstore::store::BookStore;

fn book(id: u32, title: &str, author: &str) -> Book {
    Book::new(id, title.to_string(), author.to_string())
}

#[test]
fn status_codes() {
    assert_eq!(Status::Success.code(), 200);
    assert_eq!(Status::Created.code(), 201);
    assert_eq!(Status::NoContent.code(), 204);
    assert_eq!(Status::NotFound.code(), 404);
}

#[test]
fn list_on_start_gives_seeded_books() {
    let store = BookStore::seeded();
    let (status, books) = get_books(&store);
    assert_eq!(status.code(), 200);
    let ids: Vec<u32> = books.iter().map(|b| b.id).collect();
    assert_eq!(ids, vec![1, 2, 3]);
    assert_eq!(books[0], book(1, "The Hobbit", "J.R.R. Tolkien"));
    assert_eq!(books[1], book(2, "To Kill a Mockingbird", "Harper Lee"));
    assert_eq!(books[2], book(3, "1984", "George Orwell"));
}

#[test]
fn create_then_list_shows_new_book_last() {
    let mut store = BookStore::seeded();
    let status = add_book(&mut store, book(4, "Dune", "Frank Herbert"));
    assert_eq!(status, Status::Created);
    assert_eq!(status.code(), 201);
    let (status, books) = get_books(&store);
    assert_eq!(status.code(), 200);
    assert_eq!(books.len(), 4);
    assert_eq!(books[3], book(4, "Dune", "Frank Herbert"));
}

#[test]
fn create_with_existing_id_succeeds() {
    let mut store = BookStore::seeded();
    assert_eq!(add_book(&mut store, book(1, "Copy", "C")), Status::Created);
    let (_, books) = get_books(&store);
    assert_eq!(books.iter().filter(|b| b.id == 1).count(), 2);
}

#[test]
fn update_existing_then_list_shows_new_title() {
    let mut store = BookStore::seeded();
    let status = update_book(&mut store, 2, book(2, "Go Set a Watchman", "Harper Lee"));
    assert_eq!(status, Status::Success);
    assert_eq!(status.code(), 200);
    let (_, books) = get_books(&store);
    assert_eq!(books.len(), 3);
    assert_eq!(books[1], book(2, "Go Set a Watchman", "Harper Lee"));
}

#[test]
fn update_missing_is_not_found_and_changes_nothing() {
    let mut store = BookStore::seeded();
    let (_, before) = get_books(&store);
    let status = update_book(&mut store, 99, book(99, "Ghost", "Nobody"));
    assert_eq!(status, Status::NotFound);
    assert_eq!(status.code(), 404);
    let (_, after) = get_books(&store);
    assert_eq!(after, before);
}

#[test]
fn update_with_other_id_in_body_stores_body_id() {
    let mut store = BookStore::seeded();
    assert_eq!(update_book(&mut store, 3, book(30, "Animal Farm", "George Orwell")), Status::Success);
    let (_, books) = get_books(&store);
    assert_eq!(books[2], book(30, "Animal Farm", "George Orwell"));
    assert_eq!(update_book(&mut store, 3, book(3, "1984", "George Orwell")), Status::NotFound);
}

#[test]
fn delete_existing_then_list_shows_rest() {
    let mut store = BookStore::seeded();
    let status = delete_book(&mut store, 1);
    assert_eq!(status, Status::NoContent);
    assert_eq!(status.code(), 204);
    let (_, books) = get_books(&store);
    let ids: Vec<u32> = books.iter().map(|b| b.id).collect();
    assert_eq!(ids, vec![2, 3]);
}

#[test]
fn delete_twice_is_not_found_the_second_time() {
    let mut store = BookStore::seeded();
    assert_eq!(delete_book(&mut store, 1), Status::NoContent);
    let status = delete_book(&mut store, 1);
    assert_eq!(status, Status::NotFound);
    assert_eq!(status.code(), 404);
    let (_, books) = get_books(&store);
    assert_eq!(books.len(), 2);
}

#[test]
fn scenario_in_sequence() {
    let mut store = BookStore::seeded();
    let (status, books) = get_books(&store);
    assert_eq!(status.code(), 200);
    assert_eq!(books.iter().map(|b| b.id).collect::<Vec<u32>>(), vec![1, 2, 3]);

    assert_eq!(add_book(&mut store, book(4, "Dune", "Frank Herbert")).code(), 201);
    let (_, books) = get_books(&store);
    assert_eq!(books.len(), 4);
    assert_eq!(books[3], book(4, "Dune", "Frank Herbert"));

    assert_eq!(update_book(&mut store, 2, book(2, "Go Set a Watchman", "Harper Lee")).code(), 200);
    let (_, books) = get_books(&store);
    assert_eq!(books[1].title, "Go Set a Watchman");

    let (_, before) = get_books(&store);
    assert_eq!(update_book(&mut store, 99, book(99, "X", "Y")).code(), 404);
    assert_eq!(get_books(&store).1, before);

    assert_eq!(delete_book(&mut store, 1).code(), 204);
    let (_, books) = get_books(&store);
    assert_eq!(books.iter().map(|b| b.id).collect::<Vec<u32>>(), vec![2, 3, 4]);

    assert_eq!(delete_book(&mut store, 1).code(), 404);
}
