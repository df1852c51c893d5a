use nosleep::pets::{getFileById, get_cat_by_id, get_dog_by_id, get_pet_by_id, Cat, Dog, File, Pet};

fn dog(id: &str) -> Dog {
    Dog { id: id.to_string() }
}

fn cat(id: &str) -> Cat {
    Cat { id: id.to_string() }
}

#[test]
fn dog_is_found_by_id() {
    let dogs = vec![dog("rex"), dog("fido"), dog("rex")];
    assert_eq!(get_dog_by_id(&dogs, "fido"), Some(dog("fido")));
    assert_eq!(get_dog_by_id(&dogs, "rex"), Some(dog("rex")));
    assert_eq!(get_dog_by_id(&dogs, "tom"), None);
    assert_eq!(get_dog_by_id(&dogs, ""), None);
    assert_eq!(get_dog_by_id(&Vec::new(), "rex"), None);
}

#[test]
fn cat_is_found_by_id() {
    let cats = vec![cat("tom"), cat("felix")];
    assert_eq!(get_cat_by_id(&cats, "felix"), Some(cat("felix")));
    assert_eq!(get_cat_by_id(&cats, "rex"), None);
    assert_eq!(get_cat_by_id(&Vec::new(), "tom"), None);
}

#[test]
fn pet_is_a_dog_before_it_is_a_cat() {
    let dogs = vec![dog("rex"), dog("shared")];
    let cats = vec![cat("tom"), cat("shared")];
    assert_eq!(get_pet_by_id(&dogs, &cats, "rex"), Some(Pet::Dog(dog("rex"))));
    assert_eq!(get_pet_by_id(&dogs, &cats, "tom"), Some(Pet::Cat(cat("tom"))));
    assert_eq!(get_pet_by_id(&dogs, &cats, "shared"), Some(Pet::Dog(dog("shared"))));
    assert_eq!(get_pet_by_id(&dogs, &cats, "nobody"), None);
}

#[test]
fn file_goes_by_its_id() {
    assert_eq!(getFileById("a.txt".to_string()), File { id: "a.txt".to_string() });
    assert_ne!(getFileById("a.txt".to_string()), File { id: "b.txt".to_string() });
}
