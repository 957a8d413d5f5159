//! A small catalogue that is built in, for searching without a provider.

use vstd::prelude::*;

use crate::models::{ProviderRef, ProviderRefView, SearchResult, SearchResultView, WorkType};

verus! {

/// What an entry of the built-in catalogue stands for.
pub open spec fn fixture_view(
    source: Seq<char>,
    id: Seq<char>,
    title: Seq<char>,
    year: u16,
    work_type: WorkType,
    cover: Seq<char>,
) -> SearchResultView {
    SearchResultView {
        provider_ref: ProviderRefView { source, id },
        title,
        year: Some(year),
        work_type,
        cover_url: Some(cover),
        theme_music_url: None,
    }
}

/// An entry of the built-in catalogue.
fn fixture(source: &str, id: &str, title: &str, year: u16, work_type: WorkType, cover: &str) -> (r:
    SearchResult)
    ensures
        r@ == fixture_view(source@, id@, title@, year, work_type, cover@),
{
    SearchResult {
        provider_ref: ProviderRef::new(source, id),
        title: title.to_owned(),
        year: Some(year),
        work_type,
        cover_url: Some(cover.to_owned()),
        theme_music_url: None,
    }
}

/// The films of the built-in catalogue.
pub open spec fn movie_fixtures() -> Seq<SearchResultView> {
    seq![
        fixture_view(
            "tmdb"@,
            "129"@,
            "Spirited Away"@,
            2001,
            WorkType::Movie,
            "https://image.tmdb.org/t/p/w500/39wmItIWsg5sZMyRUHLkWBcuVCM.jpg"@,
        ),
        fixture_view(
            "tmdb"@,
            "146216"@,
            "Your Name"@,
            2016,
            WorkType::Movie,
            "https://image.tmdb.org/t/p/w500/q719jXXEzOoYaps6babgKnONONX.jpg"@,
        ),
        fixture_view(
            "tmdb"@,
            "120467"@,
            "The Grand Budapest Hotel"@,
            2014,
            WorkType::Movie,
            "https://image.tmdb.org/t/p/w500/nX5XotM9yprCKarRH4fzOq1VM1J.jpg"@,
        ),
        fixture_view(
            "tmdb"@,
            "550"@,
            "Fight Club"@,
            1999,
            WorkType::Movie,
            "https://image.tmdb.org/t/p/w500/pB8BM7pdSp6B6Ih7QZ4DrQ3PmJK.jpg"@,
        ),
        fixture_view(
            "tmdb"@,
            "13"@,
            "Forrest Gump"@,
            1994,
            WorkType::Movie,
            "https://image.tmdb.org/t/p/w500/arw2vcBveWOVZr6pxd9XTd1TdQa.jpg"@,
        ),
        fixture_view(
            "tmdb"@,
            "278"@,
            "The Shawshank Redemption"@,
            1994,
            WorkType::Movie,
            "https://image.tmdb.org/t/p/w500/q6y0Go1tsGEsmtFryDOJo3dEmqu.jpg"@,
        ),
        fixture_view(
            "tmdb"@,
            "238"@,
            "The Godfather"@,
            1972,
            WorkType::Movie,
            "https://image.tmdb.org/t/p/w500/3bhkrj58Vtu7enYsRolD1fZdja1.jpg"@,
        ),
        fixture_view(
            "tmdb"@,
            "424"@,
            "Schindler's List"@,
            1993,
            WorkType::Movie,
            "https://image.tmdb.org/t/p/w500/sF1U4EUQS8YHUYjNl3pMGNIQyr0.jpg"@,
        ),
        fixture_view(
            "tmdb"@,
            "389"@,
            "12 Angry Men"@,
            1957,
            WorkType::Movie,
            "https://image.tmdb.org/t/p/w500/ow3wq89wM8qd5X7hWKxiRfsFf9C.jpg"@,
        ),
        fixture_view(
            "tmdb"@,
            "155"@,
            "The Dark Knight"@,
            2008,
            WorkType::Movie,
            "https://image.tmdb.org/t/p/w500/qJ2tW6WMUDux911r6m7haRef0WH.jpg"@,
        ),
        fixture_view(
            "tmdb"@,
            "497"@,
            "The Green Mile"@,
            1999,
            WorkType::Movie,
            "https://image.tmdb.org/t/p/w500/velWPhVMQeQKcxggNEU8YmIo52R.jpg"@,
        ),
        fixture_view(
            "tmdb"@,
            "680"@,
            "Pulp Fiction"@,
            1994,
            WorkType::Movie,
            "https://image.tmdb.org/t/p/w500/d5iIlFn5s0ImszYzBPb8JPIfbXD.jpg"@,
        ),
        fixture_view(
            "tmdb"@,
            "769"@,
            "GoodFellas"@,
            1990,
            WorkType::Movie,
            "https://image.tmdb.org/t/p/w500/aKuFiU82s5ISJpGZp7YkIr3kCUd.jpg"@,
        ),
        fixture_view(
            "tmdb"@,
            "27205"@,
            "Inception"@,
            2010,
            WorkType::Movie,
            "https://image.tmdb.org/t/p/w500/9gk7adHYeDvHkCSEqAvQNLV5Uge.jpg"@,
        ),
        fixture_view(
            "tmdb"@,
            "98"@,
            "Gladiator"@,
            2000,
            WorkType::Movie,
            "https://image.tmdb.org/t/p/w500/ty8TGRuvJLPUmAR1H1nRIsgwvim.jpg"@,
        ),
    ]
}

/// The seriess of the built-in catalogue.
pub open spec fn tv_fixtures() -> Seq<SearchResultView> {
    seq![
        fixture_view(
            "tmdb"@,
            "1355"@,
            "Cowboy Bebop"@,
            1998,
            WorkType::TvAnime,
            "https://image.tmdb.org/t/p/w500/gZFHBd677gz8V5fyj8SZx5SrqTA.jpg"@,
        ),
        fixture_view(
            "anilist"@,
            "11061"@,
            "Hunter x Hunter"@,
            2011,
            WorkType::TvAnime,
            "https://s4.anilist.co/file/anilistcdn/media/anime/cover/large/bx11061-sIpercRKikfh.png"@,
        ),
        fixture_view(
            "anilist"@,
            "5114"@,
            "Fullmetal Alchemist: Brotherhood"@,
            2009,
            WorkType::TvAnime,
            "https://s4.anilist.co/file/anilistcdn/media/anime/cover/large/bx5114-qg9GGO3c8zqF.jpg"@,
        ),
        fixture_view(
            "anilist"@,
            "21"@,
            "One Piece"@,
            1999,
            WorkType::TvAnime,
            "https://s4.anilist.co/file/anilistcdn/media/anime/cover/large/bx21-YCDoj1EkAxFn.jpg"@,
        ),
        fixture_view(
            "anilist"@,
            "1535"@,
            "Death Note"@,
            2006,
            WorkType::TvAnime,
            "https://s4.anilist.co/file/anilistcdn/media/anime/cover/large/bx1535-4r88a1tsBEIz.jpg"@,
        ),
        fixture_view(
            "anilist"@,
            "16498"@,
            "Attack on Titan"@,
            2013,
            WorkType::TvAnime,
            "https://s4.anilist.co/file/anilistcdn/media/anime/cover/large/bx16498-C6FPmWm59CyP.jpg"@,
        ),
        fixture_view(
            "anilist"@,
            "11757"@,
            "Sword Art Online"@,
            2012,
            WorkType::TvAnime,
            "https://s4.anilist.co/file/anilistcdn/media/anime/cover/large/bx11757-QlamRgbmYlbv.png"@,
        ),
        fixture_view(
            "anilist"@,
            "20958"@,
            "My Hero Academia"@,
            2016,
            WorkType::TvAnime,
            "https://s4.anilist.co/file/anilistcdn/media/anime/cover/large/bx20958-UMb6Cr4l8YJ8.jpg"@,
        ),
        fixture_view(
            "anilist"@,
            "9253"@,
            "Steins;Gate"@,
            2011,
            WorkType::TvAnime,
            "https://s4.anilist.co/file/anilistcdn/media/anime/cover/large/bx9253-7pdcVzQSkKxT.png"@,
        ),
        fixture_view(
            "anilist"@,
            "101922"@,
            "Demon Slayer"@,
            2019,
            WorkType::TvAnime,
            "https://s4.anilist.co/file/anilistcdn/media/anime/cover/large/bx101922-PEn1CTc93blC.jpg"@,
        ),
        fixture_view(
            "tmdb"@,
            "1396"@,
            "Breaking Bad"@,
            2008,
            WorkType::TvAnime,
            "https://image.tmdb.org/t/p/w500/ggFHVNu6YYI5L9pCfOacjizRGt.jpg"@,
        ),
        fixture_view(
            "tmdb"@,
            "1399"@,
            "Game of Thrones"@,
            2011,
            WorkType::TvAnime,
            "https://image.tmdb.org/t/p/w500/1XS1oqL89opfnbLl8WnZY1O1uJx.jpg"@,
        ),
    ]
}

/// The games of the built-in catalogue.
pub open spec fn game_fixtures() -> Seq<SearchResultView> {
    seq![
        fixture_view(
            "igdb"@,
            "7346"@,
            "The Legend of Zelda: Breath of the Wild"@,
            2017,
            WorkType::Game,
            "https://images.igdb.com/igdb/image/upload/t_cover_big/co3p2d.png"@,
        ),
        fixture_view(
            "igdb"@,
            "26844"@,
            "Hollow Knight"@,
            2017,
            WorkType::Game,
            "https://images.igdb.com/igdb/image/upload/t_cover_big/co1rgi.png"@,
        ),
        fixture_view(
            "igdb"@,
            "1942"@,
            "The Witcher 3: Wild Hunt"@,
            2015,
            WorkType::Game,
            "https://images.igdb.com/igdb/image/upload/t_cover_big/co1wyy.png"@,
        ),
        fixture_view(
            "igdb"@,
            "1020"@,
            "Grand Theft Auto V"@,
            2013,
            WorkType::Game,
            "https://images.igdb.com/igdb/image/upload/t_cover_big/co2lbd.png"@,
        ),
        fixture_view(
            "igdb"@,
            "1074"@,
            "Red Dead Redemption 2"@,
            2018,
            WorkType::Game,
            "https://images.igdb.com/igdb/image/upload/t_cover_big/co1q1f.png"@,
        ),
        fixture_view(
            "igdb"@,
            "11208"@,
            "Elden Ring"@,
            2022,
            WorkType::Game,
            "https://images.igdb.com/igdb/image/upload/t_cover_big/co4jni.png"@,
        ),
        fixture_view(
            "igdb"@,
            "119171"@,
            "Baldur's Gate 3"@,
            2023,
            WorkType::Game,
            "https://images.igdb.com/igdb/image/upload/t_cover_big/co5s5v.png"@,
        ),
        fixture_view(
            "igdb"@,
            "1877"@,
            "Cyberpunk 2077"@,
            2020,
            WorkType::Game,
            "https://images.igdb.com/igdb/image/upload/t_cover_big/co2vt0.png"@,
        ),
        fixture_view(
            "igdb"@,
            "11156"@,
            "Sekiro: Shadows Die Twice"@,
            2019,
            WorkType::Game,
            "https://images.igdb.com/igdb/image/upload/t_cover_big/co1ixg.png"@,
        ),
        fixture_view(
            "igdb"@,
            "113285"@,
            "Hades"@,
            2020,
            WorkType::Game,
            "https://images.igdb.com/igdb/image/upload/t_cover_big/co2i0u.png"@,
        ),
        fixture_view(
            "igdb"@,
            "26192"@,
            "Celeste"@,
            2018,
            WorkType::Game,
            "https://images.igdb.com/igdb/image/upload/t_cover_big/co1tnq.png"@,
        ),
        fixture_view(
            "igdb"@,
            "25076"@,
            "Stardew Valley"@,
            2016,
            WorkType::Game,
            "https://images.igdb.com/igdb/image/upload/t_cover_big/co5qkw.png"@,
        ),
    ]
}

/// The whole built-in catalogue: films, then series, then games.
pub open spec fn fixture_catalogue() -> Seq<SearchResultView> {
    movie_fixtures() + tv_fixtures() + game_fixtures()
}

/// The films of the built-in catalogue.
pub fn get_movie_fixtures() -> (r: Vec<SearchResult>)
    ensures
        r.deep_view() == movie_fixtures(),
{
    let mut r: Vec<SearchResult> = Vec::new();
    r.push(
        fixture(
            "tmdb",
            "129",
            "Spirited Away",
            2001,
            WorkType::Movie,
            "https://image.tmdb.org/t/p/w500/39wmItIWsg5sZMyRUHLkWBcuVCM.jpg",
        ),
    );
    r.push(
        fixture(
            "tmdb",
            "146216",
            "Your Name",
            2016,
            WorkType::Movie,
            "https://image.tmdb.org/t/p/w500/q719jXXEzOoYaps6babgKnONONX.jpg",
        ),
    );
    r.push(
        fixture(
            "tmdb",
            "120467",
            "The Grand Budapest Hotel",
            2014,
            WorkType::Movie,
            "https://image.tmdb.org/t/p/w500/nX5XotM9yprCKarRH4fzOq1VM1J.jpg",
        ),
    );
    r.push(
        fixture(
            "tmdb",
            "550",
            "Fight Club",
            1999,
            WorkType::Movie,
            "https://image.tmdb.org/t/p/w500/pB8BM7pdSp6B6Ih7QZ4DrQ3PmJK.jpg",
        ),
    );
    r.push(
        fixture(
            "tmdb",
            "13",
            "Forrest Gump",
            1994,
            WorkType::Movie,
            "https://image.tmdb.org/t/p/w500/arw2vcBveWOVZr6pxd9XTd1TdQa.jpg",
        ),
    );
    r.push(
        fixture(
            "tmdb",
            "278",
            "The Shawshank Redemption",
            1994,
            WorkType::Movie,
            "https://image.tmdb.org/t/p/w500/q6y0Go1tsGEsmtFryDOJo3dEmqu.jpg",
        ),
    );
    r.push(
        fixture(
            "tmdb",
            "238",
            "The Godfather",
            1972,
            WorkType::Movie,
            "https://image.tmdb.org/t/p/w500/3bhkrj58Vtu7enYsRolD1fZdja1.jpg",
        ),
    );
    r.push(
        fixture(
            "tmdb",
            "424",
            "Schindler's List",
            1993,
            WorkType::Movie,
            "https://image.tmdb.org/t/p/w500/sF1U4EUQS8YHUYjNl3pMGNIQyr0.jpg",
        ),
    );
    r.push(
        fixture(
            "tmdb",
            "389",
            "12 Angry Men",
            1957,
            WorkType::Movie,
            "https://image.tmdb.org/t/p/w500/ow3wq89wM8qd5X7hWKxiRfsFf9C.jpg",
        ),
    );
    r.push(
        fixture(
            "tmdb",
            "155",
            "The Dark Knight",
            2008,
            WorkType::Movie,
            "https://image.tmdb.org/t/p/w500/qJ2tW6WMUDux911r6m7haRef0WH.jpg",
        ),
    );
    r.push(
        fixture(
            "tmdb",
            "497",
            "The Green Mile",
            1999,
            WorkType::Movie,
            "https://image.tmdb.org/t/p/w500/velWPhVMQeQKcxggNEU8YmIo52R.jpg",
        ),
    );
    r.push(
        fixture(
            "tmdb",
            "680",
            "Pulp Fiction",
            1994,
            WorkType::Movie,
            "https://image.tmdb.org/t/p/w500/d5iIlFn5s0ImszYzBPb8JPIfbXD.jpg",
        ),
    );
    r.push(
        fixture(
            "tmdb",
            "769",
            "GoodFellas",
            1990,
            WorkType::Movie,
            "https://image.tmdb.org/t/p/w500/aKuFiU82s5ISJpGZp7YkIr3kCUd.jpg",
        ),
    );
    r.push(
        fixture(
            "tmdb",
            "27205",
            "Inception",
            2010,
            WorkType::Movie,
            "https://image.tmdb.org/t/p/w500/9gk7adHYeDvHkCSEqAvQNLV5Uge.jpg",
        ),
    );
    r.push(
        fixture(
            "tmdb",
            "98",
            "Gladiator",
            2000,
            WorkType::Movie,
            "https://image.tmdb.org/t/p/w500/ty8TGRuvJLPUmAR1H1nRIsgwvim.jpg",
        ),
    );
    r
}

/// The series of the built-in catalogue.
pub fn get_tv_fixtures() -> (r: Vec<SearchResult>)
    ensures
        r.deep_view() == tv_fixtures(),
{
    let mut r: Vec<SearchResult> = Vec::new();
    r.push(
        fixture(
            "tmdb",
            "1355",
            "Cowboy Bebop",
            1998,
            WorkType::TvAnime,
            "https://image.tmdb.org/t/p/w500/gZFHBd677gz8V5fyj8SZx5SrqTA.jpg",
        ),
    );
    r.push(
        fixture(
            "anilist",
            "11061",
            "Hunter x Hunter",
            2011,
            WorkType::TvAnime,
            "https://s4.anilist.co/file/anilistcdn/media/anime/cover/large/bx11061-sIpercRKikfh.png",
        ),
    );
    r.push(
        fixture(
            "anilist",
            "5114",
            "Fullmetal Alchemist: Brotherhood",
            2009,
            WorkType::TvAnime,
            "https://s4.anilist.co/file/anilistcdn/media/anime/cover/large/bx5114-qg9GGO3c8zqF.jpg",
        ),
    );
    r.push(
        fixture(
            "anilist",
            "21",
            "One Piece",
            1999,
            WorkType::TvAnime,
            "https://s4.anilist.co/file/anilistcdn/media/anime/cover/large/bx21-YCDoj1EkAxFn.jpg",
        ),
    );
    r.push(
        fixture(
            "anilist",
            "1535",
            "Death Note",
            2006,
            WorkType::TvAnime,
            "https://s4.anilist.co/file/anilistcdn/media/anime/cover/large/bx1535-4r88a1tsBEIz.jpg",
        ),
    );
    r.push(
        fixture(
            "anilist",
            "16498",
            "Attack on Titan",
            2013,
            WorkType::TvAnime,
            "https://s4.anilist.co/file/anilistcdn/media/anime/cover/large/bx16498-C6FPmWm59CyP.jpg",
        ),
    );
    r.push(
        fixture(
            "anilist",
            "11757",
            "Sword Art Online",
            2012,
            WorkType::TvAnime,
            "https://s4.anilist.co/file/anilistcdn/media/anime/cover/large/bx11757-QlamRgbmYlbv.png",
        ),
    );
    r.push(
        fixture(
            "anilist",
            "20958",
            "My Hero Academia",
            2016,
            WorkType::TvAnime,
            "https://s4.anilist.co/file/anilistcdn/media/anime/cover/large/bx20958-UMb6Cr4l8YJ8.jpg",
        ),
    );
    r.push(
        fixture(
            "anilist",
            "9253",
            "Steins;Gate",
            2011,
            WorkType::TvAnime,
            "https://s4.anilist.co/file/anilistcdn/media/anime/cover/large/bx9253-7pdcVzQSkKxT.png",
        ),
    );
    r.push(
        fixture(
            "anilist",
            "101922",
            "Demon Slayer",
            2019,
            WorkType::TvAnime,
            "https://s4.anilist.co/file/anilistcdn/media/anime/cover/large/bx101922-PEn1CTc93blC.jpg",
        ),
    );
    r.push(
        fixture(
            "tmdb",
            "1396",
            "Breaking Bad",
            2008,
            WorkType::TvAnime,
            "https://image.tmdb.org/t/p/w500/ggFHVNu6YYI5L9pCfOacjizRGt.jpg",
        ),
    );
    r.push(
        fixture(
            "tmdb",
            "1399",
            "Game of Thrones",
            2011,
            WorkType::TvAnime,
            "https://image.tmdb.org/t/p/w500/1XS1oqL89opfnbLl8WnZY1O1uJx.jpg",
        ),
    );
    r
}

/// The games of the built-in catalogue.
pub fn get_game_fixtures() -> (r: Vec<SearchResult>)
    ensures
        r.deep_view() == game_fixtures(),
{
    let mut r: Vec<SearchResult> = Vec::new();
    r.push(
        fixture(
            "igdb",
            "7346",
            "The Legend of Zelda: Breath of the Wild",
            2017,
            WorkType::Game,
            "https://images.igdb.com/igdb/image/upload/t_cover_big/co3p2d.png",
        ),
    );
    r.push(
        fixture(
            "igdb",
            "26844",
            "Hollow Knight",
            2017,
            WorkType::Game,
            "https://images.igdb.com/igdb/image/upload/t_cover_big/co1rgi.png",
        ),
    );
    r.push(
        fixture(
            "igdb",
            "1942",
            "The Witcher 3: Wild Hunt",
            2015,
            WorkType::Game,
            "https://images.igdb.com/igdb/image/upload/t_cover_big/co1wyy.png",
        ),
    );
    r.push(
        fixture(
            "igdb",
            "1020",
            "Grand Theft Auto V",
            2013,
            WorkType::Game,
            "https://images.igdb.com/igdb/image/upload/t_cover_big/co2lbd.png",
        ),
    );
    r.push(
        fixture(
            "igdb",
            "1074",
            "Red Dead Redemption 2",
            2018,
            WorkType::Game,
            "https://images.igdb.com/igdb/image/upload/t_cover_big/co1q1f.png",
        ),
    );
    r.push(
        fixture(
            "igdb",
            "11208",
            "Elden Ring",
            2022,
            WorkType::Game,
            "https://images.igdb.com/igdb/image/upload/t_cover_big/co4jni.png",
        ),
    );
    r.push(
        fixture(
            "igdb",
            "119171",
            "Baldur's Gate 3",
            2023,
            WorkType::Game,
            "https://images.igdb.com/igdb/image/upload/t_cover_big/co5s5v.png",
        ),
    );
    r.push(
        fixture(
            "igdb",
            "1877",
            "Cyberpunk 2077",
            2020,
            WorkType::Game,
            "https://images.igdb.com/igdb/image/upload/t_cover_big/co2vt0.png",
        ),
    );
    r.push(
        fixture(
            "igdb",
            "11156",
            "Sekiro: Shadows Die Twice",
            2019,
            WorkType::Game,
            "https://images.igdb.com/igdb/image/upload/t_cover_big/co1ixg.png",
        ),
    );
    r.push(
        fixture(
            "igdb",
            "113285",
            "Hades",
            2020,
            WorkType::Game,
            "https://images.igdb.com/igdb/image/upload/t_cover_big/co2i0u.png",
        ),
    );
    r.push(
        fixture(
            "igdb",
            "26192",
            "Celeste",
            2018,
            WorkType::Game,
            "https://images.igdb.com/igdb/image/upload/t_cover_big/co1tnq.png",
        ),
    );
    r.push(
        fixture(
            "igdb",
            "25076",
            "Stardew Valley",
            2016,
            WorkType::Game,
            "https://images.igdb.com/igdb/image/upload/t_cover_big/co5qkw.png",
        ),
    );
    r
}

/// The whole built-in catalogue: films, then series, then games.
pub fn get_fixture_search_results() -> (r: Vec<SearchResult>)
    ensures
        r.deep_view() == fixture_catalogue(),
{
    let mut r = get_movie_fixtures();
    let mut series = get_tv_fixtures();
    let mut games = get_game_fixtures();
    r.append(&mut series);
    r.append(&mut games);
    r
}

} // verus!
