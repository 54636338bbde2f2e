use picacg::batch::BatchCounters;
use picacg::console::Console;
use picacg::pagination::EndPolicy;
use picacg::pagination::Page;
use picacg::pagination::PaginationCursor;
use picacg::text::episode_label;
use picacg::transfer::TransferEvent;
use picacg::transfer::TransferMachine;
use picacg::transfer::TransferPhase;

/// Run one image transfer of `size` bytes to completion, publishing into the
/// page's counters.
fn download_image(counters: &mut BatchCounters, size: u64) {
    let (m, _) = TransferMachine::start(0, 3, 10, 1000);
    let (m, _, d) = m.step(TransferEvent::ProbeOk { length: size });
    counters.apply(&d);
    let (m, _, d) = m.step(TransferEvent::Chunk { len: size });
    counters.apply(&d);
    assert!(matches!(m.phase, TransferPhase::Completed));
}

#[test]
fn episode_download_walks_pages_and_counts_images() {
    // An episode of two listing pages, holding two and then one image.
    let pages = [
        Page::new(vec![100u64, 150], 1, 2, 3),
        Page::new(vec![200u64], 2, 2, 3),
    ];
    let label = episode_label("Ch 1", "Title", "Author");

    let mut cursor = PaginationCursor::new(1, EndPolicy::UntilExhausted);
    let mut visited: Vec<u64> = Vec::new();
    let mut episode_done: u64 = 0;
    let mut fetched: usize = 0;

    loop {
        let page = &pages[fetched];
        fetched += 1;
        assert_eq!(page.current_index, cursor.current);
        visited.push(cursor.current);

        // One batch per page: every image of the page downloads
        // concurrently against these shared counters.
        let mut counters = BatchCounters::new(page.items.len() as u64);
        for &size in &page.items {
            download_image(&mut counters, size);
        }
        assert!(counters.is_complete());
        episode_done += counters.completed_count;

        // The progress line a poll would have shown at this point.
        let line = Console::format_download_ep(
            &label,
            page.current_index,
            page.total_pages,
            counters.completed_count,
            page.items.len() as u64,
            episode_done,
            page.total_items,
        );
        if fetched == 1 {
            assert_eq!(
                line,
                "Ch 1 of Title - Author Page 1/2 Completed Current Page Image 2/2 100.00% \
                 Total 2/3 66.66%"
            );
        }

        cursor = cursor.observe_total(page.total_pages);
        let (next, more) = cursor.advance();
        if !more {
            break;
        }
        cursor = next;
    }

    assert_eq!(visited, vec![1, 2]);
    assert_eq!(episode_done, 3);
}
